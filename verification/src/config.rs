use vstd::prelude::*;

verus! {

/// Configuration for CUDA discovery, PTX compilation, and Rust API generation.
#[derive(Clone, Debug)]
pub struct Config {
    kernels_dir: String,
    out_dir: String,
    generated_file_name: String,
    compute_capability: Option<String>,
    include_paths: Vec<String>,
    nvrtc_options: Vec<String>,
    use_fast_math: Option<bool>,
    max_register_count: Option<usize>,
    cudarc_crate_path: String,
    emit_cargo_directives: bool,
}

/// A [`Config`] with its texts taken as characters.
pub struct ConfigView {
    pub kernels_dir: Seq<char>,
    pub out_dir: Seq<char>,
    pub generated_file_name: Seq<char>,
    pub compute_capability: Option<Seq<char>>,
    pub include_paths: Seq<Seq<char>>,
    pub nvrtc_options: Seq<Seq<char>>,
    pub use_fast_math: Option<bool>,
    pub max_register_count: Option<usize>,
    pub cudarc_crate_path: Seq<char>,
    pub emit_cargo_directives: bool,
}

impl ConfigView {
    pub open spec fn with_kernels_dir(self, v: Seq<char>) -> ConfigView {
        ConfigView { kernels_dir: v, ..self }
    }

    pub open spec fn with_out_dir(self, v: Seq<char>) -> ConfigView {
        ConfigView { out_dir: v, ..self }
    }

    pub open spec fn with_generated_file_name(self, v: Seq<char>) -> ConfigView {
        ConfigView { generated_file_name: v, ..self }
    }

    pub open spec fn with_compute_capability(self, v: Option<Seq<char>>) -> ConfigView {
        ConfigView { compute_capability: v, ..self }
    }

    pub open spec fn with_include_path(self, v: Seq<char>) -> ConfigView {
        ConfigView { include_paths: self.include_paths.push(v), ..self }
    }

    pub open spec fn with_nvrtc_option(self, v: Seq<char>) -> ConfigView {
        ConfigView { nvrtc_options: self.nvrtc_options.push(v), ..self }
    }

    pub open spec fn with_use_fast_math(self, v: bool) -> ConfigView {
        ConfigView { use_fast_math: Some(v), ..self }
    }

    pub open spec fn with_max_register_count(self, v: usize) -> ConfigView {
        ConfigView { max_register_count: Some(v), ..self }
    }

    pub open spec fn with_cudarc_crate_path(self, v: Seq<char>) -> ConfigView {
        ConfigView { cudarc_crate_path: v, ..self }
    }

    pub open spec fn with_emit_cargo_directives(self, v: bool) -> ConfigView {
        ConfigView { emit_cargo_directives: v, ..self }
    }
}

/// The characters of each string.
pub open spec fn strings_view(v: Seq<String>) -> Seq<Seq<char>> {
    v.map_values(|s: String| s@)
}

/// The characters of an optional string.
pub open spec fn opt_string_view(o: Option<String>) -> Option<Seq<char>> {
    match o {
        Some(s) => Some(s@),
        None => None,
    }
}

impl View for Config {
    type V = ConfigView;

    closed spec fn view(&self) -> ConfigView {
        ConfigView {
            kernels_dir: self.kernels_dir@,
            out_dir: self.out_dir@,
            generated_file_name: self.generated_file_name@,
            compute_capability: opt_string_view(self.compute_capability),
            include_paths: strings_view(self.include_paths@),
            nvrtc_options: strings_view(self.nvrtc_options@),
            use_fast_math: self.use_fast_math,
            max_register_count: self.max_register_count,
            cudarc_crate_path: self.cudarc_crate_path@,
            emit_cargo_directives: self.emit_cargo_directives,
        }
    }
}

/// The configuration that [`Config::new`] makes: default file name `gen_kernels.rs`, default
/// `cudarc` crate path, Cargo directives on, everything else unset or empty.
pub open spec fn default_config(kernels_dir: Seq<char>, out_dir: Seq<char>) -> ConfigView {
    ConfigView {
        kernels_dir,
        out_dir,
        generated_file_name: "gen_kernels.rs"@,
        compute_capability: None,
        include_paths: Seq::empty(),
        nvrtc_options: Seq::empty(),
        use_fast_math: None,
        max_register_count: None,
        cudarc_crate_path: "cudarc"@,
        emit_cargo_directives: true,
    }
}

impl Config {
    /// Creates a generator configuration from explicit kernel and output directories.
    pub fn new(kernels_dir: &str, out_dir: &str) -> (r: Config)
        ensures
            r@ == default_config(kernels_dir@, out_dir@),
    {
        let c = Config {
            kernels_dir: String::from_str(kernels_dir),
            out_dir: String::from_str(out_dir),
            generated_file_name: String::from_str("gen_kernels.rs"),
            compute_capability: None,
            include_paths: Vec::new(),
            nvrtc_options: Vec::new(),
            use_fast_math: None,
            max_register_count: None,
            cudarc_crate_path: String::from_str("cudarc"),
            emit_cargo_directives: true,
        };
        assert(strings_view(c.include_paths@) =~= Seq::<Seq<char>>::empty());
        assert(strings_view(c.nvrtc_options@) =~= Seq::<Seq<char>>::empty());
        c
    }

    /// Overrides the directory that contains `.cu` kernel files.
    pub fn kernels_dir(self, kernels_dir: &str) -> (r: Config)
        ensures
            r@ == self@.with_kernels_dir(kernels_dir@),
    {
        Config { kernels_dir: String::from_str(kernels_dir), ..self }
    }

    /// Overrides the directory where PTX files and the generated Rust file are written.
    pub fn out_dir(self, out_dir: &str) -> (r: Config)
        ensures
            r@ == self@.with_out_dir(out_dir@),
    {
        Config { out_dir: String::from_str(out_dir), ..self }
    }

    /// Overrides the generated Rust file name.
    pub fn generated_file_name(self, generated_file_name: &str) -> (r: Config)
        ensures
            r@ == self@.with_generated_file_name(generated_file_name@),
    {
        Config { generated_file_name: String::from_str(generated_file_name), ..self }
    }

    /// Sets the CUDA compute capability passed to the compiler (such as `90`).
    pub fn compute_capability(self, compute_capability: &str) -> (r: Config)
        ensures
            r@ == self@.with_compute_capability(Some(compute_capability@)),
    {
        Config { compute_capability: Some(String::from_str(compute_capability)), ..self }
    }

    /// Clears any configured CUDA compute capability.
    pub fn without_compute_capability(self) -> (r: Config)
        ensures
            r@ == self@.with_compute_capability(None),
    {
        Config { compute_capability: None, ..self }
    }

    /// Adds an include path passed to the compiler.
    pub fn include_path(self, include_path: &str) -> (r: Config)
        ensures
            r@ == self@.with_include_path(include_path@),
    {
        let mut c = self;
        let ghost before = c.include_paths@;
        c.include_paths.push(String::from_str(include_path));
        assert(strings_view(c.include_paths@) =~= strings_view(before).push(include_path@));
        c
    }

    /// Adds a raw NVRTC option, passed through unchanged.
    pub fn nvrtc_option(self, option: &str) -> (r: Config)
        ensures
            r@ == self@.with_nvrtc_option(option@),
    {
        let mut c = self;
        let ghost before = c.nvrtc_options@;
        c.nvrtc_options.push(String::from_str(option));
        assert(strings_view(c.nvrtc_options@) =~= strings_view(before).push(option@));
        c
    }

    /// Enables or disables `--use_fast_math`.
    pub fn use_fast_math(self, use_fast_math: bool) -> (r: Config)
        ensures
            r@ == self@.with_use_fast_math(use_fast_math),
    {
        Config { use_fast_math: Some(use_fast_math), ..self }
    }

    /// Sets `--maxrregcount`.
    pub fn max_register_count(self, max_register_count: usize) -> (r: Config)
        ensures
            r@ == self@.with_max_register_count(max_register_count),
    {
        Config { max_register_count: Some(max_register_count), ..self }
    }

    /// Sets the crate path used for `cudarc` in generated Rust code.
    pub fn cudarc_crate_path(self, cudarc_crate_path: &str) -> (r: Config)
        ensures
            r@ == self@.with_cudarc_crate_path(cudarc_crate_path@),
    {
        Config { cudarc_crate_path: String::from_str(cudarc_crate_path), ..self }
    }

    /// Enables or disables Cargo `rerun-if-*` build-script directives.
    pub fn emit_cargo_directives(self, emit_cargo_directives: bool) -> (r: Config)
        ensures
            r@ == self@.with_emit_cargo_directives(emit_cargo_directives),
    {
        Config { emit_cargo_directives, ..self }
    }

    /// The configured kernel source directory.
    pub fn kernels_dir_path(&self) -> (r: &str)
        ensures
            r@ == self@.kernels_dir,
    {
        self.kernels_dir.as_str()
    }

    /// The configured output directory.
    pub fn out_dir_path(&self) -> (r: &str)
        ensures
            r@ == self@.out_dir,
    {
        self.out_dir.as_str()
    }

    /// The generated Rust file name.
    pub fn generated_file_name_ref(&self) -> (r: &str)
        ensures
            r@ == self@.generated_file_name,
    {
        self.generated_file_name.as_str()
    }

    /// The configured CUDA compute capability, if any.
    pub fn compute_capability_ref(&self) -> (r: Option<&str>)
        ensures
            self@.compute_capability is None ==> r is None,
            self@.compute_capability matches Some(c) ==> r matches Some(s) && s@ == c,
    {
        match &self.compute_capability {
            Some(c) => Some(c.as_str()),
            None => None,
        }
    }

    /// The include paths passed to the compiler.
    pub fn include_paths(&self) -> (r: &[String])
        ensures
            strings_view(r@) == self@.include_paths,
    {
        self.include_paths.as_slice()
    }

    /// The raw NVRTC options.
    pub fn nvrtc_options(&self) -> (r: &[String])
        ensures
            strings_view(r@) == self@.nvrtc_options,
    {
        self.nvrtc_options.as_slice()
    }

    /// The configured `--use_fast_math` setting.
    pub fn use_fast_math_ref(&self) -> (r: Option<bool>)
        ensures
            r == self@.use_fast_math,
    {
        self.use_fast_math
    }

    /// The configured `--maxrregcount` setting.
    pub fn max_register_count_ref(&self) -> (r: Option<usize>)
        ensures
            r == self@.max_register_count,
    {
        self.max_register_count
    }

    /// The crate path used for `cudarc` in generated code.
    pub fn cudarc_crate_path_ref(&self) -> (r: &str)
        ensures
            r@ == self@.cudarc_crate_path,
    {
        self.cudarc_crate_path.as_str()
    }

    /// Whether Cargo `rerun-if-*` directives are emitted.
    pub fn emits_cargo_directives(&self) -> (r: bool)
        ensures
            r == self@.emit_cargo_directives,
    {
        self.emit_cargo_directives
    }
}

} // verus!
