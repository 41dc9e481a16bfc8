//! Options of the local Docling executable and the command line built from them.

use vstd::prelude::*;
use vstd::string::StringExecFns;

verus! {

/// Options for running the local Docling executable.
#[derive(Debug, Clone)]
pub struct DoclingConfig {
    pub use_ocr: bool,
    pub vlm_model: Option<String>,
    pub output_format: String,
    pub python_path: Option<String>,
    pub extra_args: Vec<String>,
    pub enable_tables: bool,
    pub enable_images: bool,
    pub cache_dir: Option<String>,
}

impl Default for DoclingConfig {
    /// The built-in options.
    fn default() -> (config: Self)
        ensures
            config.is_default(),
    {
        DoclingConfig {
            use_ocr: true,
            vlm_model: None,
            output_format: String::from_str("md"),
            python_path: None,
            extra_args: Vec::new(),
            enable_tables: true,
            enable_images: true,
            cache_dir: None,
        }
    }
}

impl DoclingConfig {
    /// The built-in options: OCR, tables and images on, Markdown output, nothing else set.
    pub open spec fn is_default(&self) -> bool {
        &&& self.use_ocr
        &&& self.vlm_model is None
        &&& self.output_format@ == "md"@
        &&& self.python_path is None
        &&& self.extra_args@.len() == 0
        &&& self.enable_tables
        &&& self.enable_images
        &&& self.cache_dir is None
    }

    /// The options to work with, given what the configuration file held: `stored` is `None`
    /// where there is no such file, which silently gives the built-in options.
    pub fn from_config_file(stored: Option<DoclingConfig>) -> (config: DoclingConfig)
        ensures
            stored matches Some(read) ==> config == read,
            stored is None ==> config.is_default(),
    {
        match stored {
            Some(read) => read,
            None => DoclingConfig::default(),
        }
    }

    /// The arguments that select the output: the input file, the format and the directory.
    pub open spec fn output_args(&self, input_file: Seq<char>, output_dir: Seq<char>) -> Seq<
        Seq<char>,
    > {
        seq![input_file, "--to"@, self.output_format@, "--output"@, output_dir]
    }

    /// `--no-ocr` where OCR is switched off, nothing otherwise.
    pub open spec fn ocr_args(&self) -> Seq<Seq<char>> {
        if self.use_ocr {
            Seq::empty()
        } else {
            seq!["--no-ocr"@]
        }
    }

    /// The VLM pipeline and its model where one is chosen, nothing otherwise.
    pub open spec fn vlm_args(&self) -> Seq<Seq<char>> {
        match self.vlm_model {
            Some(model) => seq!["--pipeline"@, "vlm"@, "--vlm-model"@, model@],
            None => Seq::empty(),
        }
    }

    /// The whole command line after the executable's name.
    pub open spec fn cli_args(&self, input_file: Seq<char>, output_dir: Seq<char>) -> Seq<
        Seq<char>,
    > {
        self.output_args(input_file, output_dir) + self.ocr_args() + self.vlm_args()
            + self.extra_args.deep_view()
    }

    /// Builds the arguments for one run of the Docling executable on `input_file`, writing
    /// into `output_dir`.
    pub fn build_cli_args(&self, input_file: &str, output_dir: &str) -> (args: Vec<String>)
        ensures
            args.deep_view() == self.cli_args(input_file@, output_dir@),
    {
        let mut args: Vec<String> = Vec::new();
        args.push(String::from_str(input_file));
        args.push(String::from_str("--to"));
        args.push(self.output_format.clone());
        args.push(String::from_str("--output"));
        args.push(String::from_str(output_dir));
        assert(args.deep_view() =~= self.output_args(input_file@, output_dir@));
        if !self.use_ocr {
            args.push(String::from_str("--no-ocr"));
        }
        assert(args.deep_view() =~= self.output_args(input_file@, output_dir@) + self.ocr_args());
        match &self.vlm_model {
            Some(model) => {
                args.push(String::from_str("--pipeline"));
                args.push(String::from_str("vlm"));
                args.push(String::from_str("--vlm-model"));
                args.push(model.clone());
            },
            None => {},
        }
        assert(args.deep_view() =~= self.output_args(input_file@, output_dir@) + self.ocr_args()
            + self.vlm_args());
        let ghost head = args.deep_view();
        let n = self.extra_args.len();
        let mut i: usize = 0;
        while i < n
            invariant
                n == self.extra_args@.len(),
                i <= n,
                args.deep_view() =~= head + self.extra_args.deep_view().subrange(0, i as int),
            decreases n - i,
        {
            let ghost before = args.deep_view();
            args.push(self.extra_args[i].clone());
            assert(args.deep_view() =~= before.push(self.extra_args@[i as int]@));
            assert(self.extra_args.deep_view().subrange(0, i + 1) =~= self.extra_args.deep_view().subrange(
                0,
                i as int,
            ).push(self.extra_args@[i as int]@));
            i += 1;
        }
        assert(self.extra_args.deep_view().subrange(0, n as int) =~= self.extra_args.deep_view());
        args
    }

    /// The Python interpreter to use: the configured one, or `python3`.
    pub open spec fn python_path_text(&self) -> Seq<char> {
        match self.python_path {
            Some(path) => path@,
            None => "python3"@,
        }
    }

    /// Gives the Python interpreter to use.
    pub fn get_python_path(&self) -> (path: String)
        ensures
            path@ == self.python_path_text(),
    {
        match &self.python_path {
            Some(path) => path.clone(),
            None => String::from_str("python3"),
        }
    }
}

} // verus!
