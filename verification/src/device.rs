use vstd::prelude::*;

use crate::error::Error;

verus! {

/// The outcome of capturing a CUDA graph around a closure: the error the closure returned, if
/// any, takes precedence (the capture was aborted on its account); otherwise the driver's
/// capture error, or the graph.
pub fn capture_outcome<G>(graph: Result<G, cudarc::driver::DriverError>, err: Option<Error>) -> (r:
    Result<G, Error>)
    ensures
        err matches Some(e) ==> r == Err::<G, Error>(e),
        err is None ==> match graph {
            Ok(g) => r == Ok::<G, Error>(g),
            Err(d) => r == Err::<G, Error>(Error::Cuda(d)),
        },
{
    match (graph, err) {
        (Ok(g), None) => Ok(g),
        (Err(d), None) => Err(Error::from(d)),
        (_, Some(e)) => Err(e),
    }
}

} // verus!
