//! Options of the Docling conversion service, the form fields sent with every upload and the
//! addresses of the service's endpoints.

use vstd::prelude::*;
use vstd::string::StringExecFns;
use crate::text::{signed_decimal, signed_decimal_string};

verus! {

/// Options for converting through a Docling service. The two numbers that the service takes
/// as decimals, the image scale and the document time-out, are held as the text that is
/// sent; the time-out is held in whole seconds as well, for the HTTP client.
#[derive(Debug, Clone)]
pub struct DoclingServeConfig {
    pub base_url: String,
    pub api_key: Option<String>,
    pub use_ocr: bool,
    pub force_ocr: bool,
    pub ocr_engine: String,
    pub ocr_languages: Vec<String>,
    pub pdf_backend: String,
    pub table_mode: String,
    pub enable_table_structure: bool,
    pub table_cell_matching: bool,
    pub include_images: bool,
    pub image_scale: String,
    pub image_export_mode: String,
    pub do_code_enrichment: bool,
    pub do_formula_enrichment: bool,
    pub do_picture_classification: bool,
    pub do_picture_description: bool,
    pub processing_pipeline: String,
    pub document_timeout: String,
    pub document_timeout_secs: u64,
    pub abort_on_error: bool,
    pub use_async: bool,
    pub poll_interval: u64,
    pub max_poll_attempts: usize,
    pub to_formats: Vec<String>,
    pub from_formats: Vec<String>,
    pub page_range: Option<Vec<i64>>,
    pub md_page_break_placeholder: String,
    pub output_dir: Option<String>,
}

/// One field of the upload form: its name and its value.
pub type FormField = (Seq<char>, Seq<char>);

/// The input formats that the service is asked to accept unless configured otherwise.
pub open spec fn default_from_formats() -> Seq<Seq<char>> {
    seq!["docx"@, "pptx"@, "html"@, "image"@, "pdf"@, "asciidoc"@, "md"@]
}

impl Default for DoclingServeConfig {
    /// A service on this machine, called synchronously, without OCR, with accurate tables
    /// and Markdown output; a job is polled every 5 seconds, 60 times at most.
    fn default() -> (config: Self)
        ensures
            config.is_default(),
    {
        let mut to_formats: Vec<String> = Vec::new();
        to_formats.push(String::from_str("md"));
        assert(to_formats.deep_view() =~= seq!["md"@]);
        let mut from_formats: Vec<String> = Vec::new();
        from_formats.push(String::from_str("docx"));
        from_formats.push(String::from_str("pptx"));
        from_formats.push(String::from_str("html"));
        from_formats.push(String::from_str("image"));
        from_formats.push(String::from_str("pdf"));
        from_formats.push(String::from_str("asciidoc"));
        from_formats.push(String::from_str("md"));
        assert(from_formats.deep_view() =~= default_from_formats());
        DoclingServeConfig {
            base_url: String::from_str("http://localhost:5001"),
            api_key: None,
            use_ocr: false,
            force_ocr: false,
            ocr_engine: String::from_str("easyocr"),
            ocr_languages: Vec::new(),
            pdf_backend: String::from_str("dlparse_v4"),
            table_mode: String::from_str("accurate"),
            enable_table_structure: true,
            table_cell_matching: true,
            include_images: false,
            image_scale: String::from_str("2"),
            image_export_mode: String::from_str("embedded"),
            do_code_enrichment: false,
            do_formula_enrichment: false,
            do_picture_classification: false,
            do_picture_description: false,
            processing_pipeline: String::from_str("standard"),
            document_timeout: String::from_str("604800"),
            document_timeout_secs: 604800,
            abort_on_error: false,
            use_async: false,
            poll_interval: 5,
            max_poll_attempts: 60,
            to_formats,
            from_formats,
            page_range: None,
            md_page_break_placeholder: String::new(),
            output_dir: None,
        }
    }
}

/// How a switch is written in the form.
pub open spec fn flag_text(on: bool) -> Seq<char> {
    if on {
        "true"@
    } else {
        "false"@
    }
}

/// A list-valued option: one field of the same name for each value, in order.
pub open spec fn repeated(name: Seq<char>, values: Seq<Seq<char>>) -> Seq<FormField> {
    Seq::new(values.len(), |i: int| (name, values[i]))
}

impl DoclingServeConfig {
    /// The built-in options.
    pub open spec fn is_default(&self) -> bool {
        &&& self.base_url@ == "http://localhost:5001"@
        &&& self.api_key is None
        &&& !self.use_ocr
        &&& !self.force_ocr
        &&& self.ocr_engine@ == "easyocr"@
        &&& self.ocr_languages@.len() == 0
        &&& self.pdf_backend@ == "dlparse_v4"@
        &&& self.table_mode@ == "accurate"@
        &&& self.enable_table_structure
        &&& self.table_cell_matching
        &&& !self.include_images
        &&& self.image_scale@ == "2"@
        &&& self.image_export_mode@ == "embedded"@
        &&& !self.do_code_enrichment
        &&& !self.do_formula_enrichment
        &&& !self.do_picture_classification
        &&& !self.do_picture_description
        &&& self.processing_pipeline@ == "standard"@
        &&& self.document_timeout@ == "604800"@
        &&& self.document_timeout_secs == 604800
        &&& !self.abort_on_error
        &&& !self.use_async
        &&& self.poll_interval == 5
        &&& self.max_poll_attempts == 60
        &&& self.to_formats.deep_view() == seq!["md"@]
        &&& self.from_formats.deep_view() == default_from_formats()
        &&& self.page_range is None
        &&& self.md_page_break_placeholder@.len() == 0
        &&& self.output_dir is None
    }

    /// The options to work with, given what the configuration file held: `stored` is `None`
    /// where there is no such file, which silently gives the built-in options.
    pub fn from_config_file(stored: Option<DoclingServeConfig>) -> (config: DoclingServeConfig)
        ensures
            stored matches Some(read) ==> config == read,
            stored is None ==> config.is_default(),
    {
        match stored {
            Some(read) => read,
            None => DoclingServeConfig::default(),
        }
    }

    /// The switches, in the order in which they are sent.
    pub open spec fn flag_fields(&self) -> Seq<FormField> {
        seq![
            ("do_ocr"@, flag_text(self.use_ocr)),
            ("force_ocr"@, flag_text(self.force_ocr)),
            ("do_table_structure"@, flag_text(self.enable_table_structure)),
            ("table_cell_matching"@, flag_text(self.table_cell_matching)),
            ("include_images"@, flag_text(self.include_images)),
            ("do_code_enrichment"@, flag_text(self.do_code_enrichment)),
            ("do_formula_enrichment"@, flag_text(self.do_formula_enrichment)),
            ("do_picture_classification"@, flag_text(self.do_picture_classification)),
            ("do_picture_description"@, flag_text(self.do_picture_description)),
            ("abort_on_error"@, flag_text(self.abort_on_error)),
        ]
    }

    /// The options that name an engine or a mode.
    pub open spec fn choice_fields(&self) -> Seq<FormField> {
        seq![
            ("ocr_engine"@, self.ocr_engine@),
            ("pdf_backend"@, self.pdf_backend@),
            ("table_mode"@, self.table_mode@),
            ("pipeline"@, self.processing_pipeline@),
            ("image_export_mode"@, self.image_export_mode@),
        ]
    }

    /// The page-break placeholder, sent only where one is set.
    pub open spec fn placeholder_fields(&self) -> Seq<FormField> {
        if self.md_page_break_placeholder@.len() == 0 {
            Seq::empty()
        } else {
            seq![("md_page_break_placeholder"@, self.md_page_break_placeholder@)]
        }
    }

    /// The image scale and the document time-out.
    pub open spec fn number_fields(&self) -> Seq<FormField> {
        seq![("images_scale"@, self.image_scale@), ("document_timeout"@, self.document_timeout@)]
    }

    /// The page range, sent as two fields and only where exactly two pages are given.
    pub open spec fn page_range_fields(&self) -> Seq<FormField> {
        match self.page_range {
            Some(range) => if range@.len() == 2 {
                seq![
                    ("page_range"@, signed_decimal(range@[0] as int)),
                    ("page_range"@, signed_decimal(range@[1] as int)),
                ]
            } else {
                Seq::empty()
            },
            None => Seq::empty(),
        }
    }

    /// The scalar options: switches, choices, placeholder and numbers.
    pub open spec fn scalar_fields(&self) -> Seq<FormField> {
        self.flag_fields() + self.choice_fields() + self.placeholder_fields()
            + self.number_fields()
    }

    /// The list-valued options: OCR languages, output formats, input formats, page range.
    pub open spec fn list_fields(&self) -> Seq<FormField> {
        repeated("ocr_lang"@, self.ocr_languages.deep_view()) + repeated(
            "to_formats"@,
            self.to_formats.deep_view(),
        ) + repeated("from_formats"@, self.from_formats.deep_view()) + self.page_range_fields()
    }

    /// Every option as form fields, in the order in which they are sent.
    pub open spec fn form_fields(&self) -> Seq<FormField> {
        self.scalar_fields() + self.list_fields()
    }
}

fn push_flag(form: &mut Vec<(&'static str, String)>, name: &'static str, on: bool)
    ensures
        final(form).deep_view() == old(form).deep_view().push((name@, flag_text(on))),
{
    let ghost before = form.deep_view();
    let value = if on {
        String::from_str("true")
    } else {
        String::from_str("false")
    };
    form.push((name, value));
    assert(form.deep_view() =~= before.push((name@, flag_text(on))));
}

fn push_value(form: &mut Vec<(&'static str, String)>, name: &'static str, value: &String)
    ensures
        final(form).deep_view() == old(form).deep_view().push((name@, value@)),
{
    let ghost before = form.deep_view();
    form.push((name, value.clone()));
    assert(form.deep_view() =~= before.push((name@, value@)));
}

fn push_repeated(form: &mut Vec<(&'static str, String)>, name: &'static str, values: &Vec<String>)
    ensures
        final(form).deep_view() == old(form).deep_view() + repeated(name@, values.deep_view()),
{
    let ghost before = form.deep_view();
    let n = values.len();
    let mut i: usize = 0;
    assert(form.deep_view() =~= before + repeated(name@, values.deep_view()).subrange(0, 0));
    while i < n
        invariant
            n == values@.len(),
            i <= n,
            form.deep_view() == before + repeated(name@, values.deep_view()).subrange(
                0,
                i as int,
            ),
        decreases n - i,
    {
        let ghost sofar = form.deep_view();
        form.push((name, values[i].clone()));
        assert(form.deep_view() =~= sofar.push((name@, values@[i as int]@)));
        assert(repeated(name@, values.deep_view()).subrange(0, i + 1) =~= repeated(
            name@,
            values.deep_view(),
        ).subrange(0, i as int).push((name@, values@[i as int]@)));
        i += 1;
    }
    assert(repeated(name@, values.deep_view()).subrange(0, n as int) =~= repeated(
        name@,
        values.deep_view(),
    ));
}

impl DoclingServeConfig {
    fn push_flags(&self, form: &mut Vec<(&'static str, String)>)
        ensures
            final(form).deep_view() == old(form).deep_view() + self.flag_fields(),
    {
        let ghost before = form.deep_view();
        push_flag(form, "do_ocr", self.use_ocr);
        push_flag(form, "force_ocr", self.force_ocr);
        push_flag(form, "do_table_structure", self.enable_table_structure);
        push_flag(form, "table_cell_matching", self.table_cell_matching);
        push_flag(form, "include_images", self.include_images);
        let ghost half = form.deep_view();
        push_flag(form, "do_code_enrichment", self.do_code_enrichment);
        push_flag(form, "do_formula_enrichment", self.do_formula_enrichment);
        push_flag(form, "do_picture_classification", self.do_picture_classification);
        push_flag(form, "do_picture_description", self.do_picture_description);
        push_flag(form, "abort_on_error", self.abort_on_error);
        assert(half =~= before + self.flag_fields().subrange(0, 5));
        assert(form.deep_view() =~= half + self.flag_fields().subrange(5, 10));
        assert(form.deep_view() =~= before + self.flag_fields());
    }

    fn push_choices(&self, form: &mut Vec<(&'static str, String)>)
        ensures
            final(form).deep_view() == old(form).deep_view() + self.choice_fields(),
    {
        let ghost before = form.deep_view();
        push_value(form, "ocr_engine", &self.ocr_engine);
        push_value(form, "pdf_backend", &self.pdf_backend);
        push_value(form, "table_mode", &self.table_mode);
        push_value(form, "pipeline", &self.processing_pipeline);
        push_value(form, "image_export_mode", &self.image_export_mode);
        assert(form.deep_view() =~= before + self.choice_fields());
    }

    fn push_placeholder(&self, form: &mut Vec<(&'static str, String)>)
        ensures
            final(form).deep_view() == old(form).deep_view() + self.placeholder_fields(),
    {
        let ghost before = form.deep_view();
        if !self.md_page_break_placeholder.as_str().is_empty() {
            push_value(form, "md_page_break_placeholder", &self.md_page_break_placeholder);
        }
        assert(form.deep_view() =~= before + self.placeholder_fields());
    }

    fn push_numbers(&self, form: &mut Vec<(&'static str, String)>)
        ensures
            final(form).deep_view() == old(form).deep_view() + self.number_fields(),
    {
        let ghost before = form.deep_view();
        push_value(form, "images_scale", &self.image_scale);
        push_value(form, "document_timeout", &self.document_timeout);
        assert(form.deep_view() =~= before + self.number_fields());
    }

    fn push_page_range(&self, form: &mut Vec<(&'static str, String)>)
        ensures
            final(form).deep_view() == old(form).deep_view() + self.page_range_fields(),
    {
        let ghost before = form.deep_view();
        match &self.page_range {
            Some(range) => {
                if range.len() == 2 {
                    let first = signed_decimal_string(range[0]);
                    let second = signed_decimal_string(range[1]);
                    push_value(form, "page_range", &first);
                    push_value(form, "page_range", &second);
                }
            },
            None => {},
        }
        assert(form.deep_view() =~= before + self.page_range_fields());
    }

    /// Flattens the options into the fields of the upload form: switches, texts and numbers
    /// as one field each, a list as one field of the same name for each of its values.
    pub fn build_form_data(&self) -> (form: Vec<(&'static str, String)>)
        ensures
            form.deep_view() == self.form_fields(),
    {
        let mut form: Vec<(&'static str, String)> = Vec::new();
        assert(form.deep_view() =~= Seq::<FormField>::empty());
        self.push_flags(&mut form);
        self.push_choices(&mut form);
        self.push_placeholder(&mut form);
        self.push_numbers(&mut form);
        assert(form.deep_view() =~= self.scalar_fields());
        push_repeated(&mut form, "ocr_lang", &self.ocr_languages);
        push_repeated(&mut form, "to_formats", &self.to_formats);
        push_repeated(&mut form, "from_formats", &self.from_formats);
        self.push_page_range(&mut form);
        assert(form.deep_view() =~= self.scalar_fields() + self.list_fields());
        form
    }
}

impl DoclingServeConfig {
    /// Where a file is sent for conversion: the job endpoint where jobs are used, else the
    /// endpoint that answers with the result.
    pub open spec fn convert_endpoint(&self) -> Seq<char> {
        if self.use_async {
            self.base_url@ + "/v1/convert/file/async"@
        } else {
            self.base_url@ + "/v1/convert/file"@
        }
    }

    /// Where the status of the job `task_id` is asked for.
    pub open spec fn status_endpoint(&self, task_id: Seq<char>) -> Seq<char> {
        self.base_url@ + "/v1/status/poll/"@ + task_id
    }

    /// Where the result of the job `task_id` is fetched.
    pub open spec fn result_endpoint(&self, task_id: Seq<char>) -> Seq<char> {
        self.base_url@ + "/v1/result/"@ + task_id
    }

    /// Where the service says whether it is up.
    pub open spec fn health_endpoint(&self) -> Seq<char> {
        self.base_url@ + "/health"@
    }

    /// The value of the `Authorization` header: the API key as a bearer token, where a key
    /// is set.
    pub open spec fn authorization(&self) -> Option<Seq<char>> {
        match self.api_key {
            Some(key) => Some("Bearer "@ + key@),
            None => None,
        }
    }

    /// Gives the address to which a file is sent for conversion.
    pub fn get_convert_endpoint(&self) -> (url: String)
        ensures
            url@ == self.convert_endpoint(),
    {
        let mut url = self.base_url.clone();
        if self.use_async {
            url.append("/v1/convert/file/async");
        } else {
            url.append("/v1/convert/file");
        }
        url
    }

    /// Gives the address at which the status of the job `task_id` is asked for.
    pub fn get_status_endpoint(&self, task_id: &str) -> (url: String)
        ensures
            url@ == self.status_endpoint(task_id@),
    {
        let mut url = self.base_url.clone();
        url.append("/v1/status/poll/");
        url.append(task_id);
        url
    }

    /// Gives the address at which the result of the job `task_id` is fetched.
    pub fn get_result_endpoint(&self, task_id: &str) -> (url: String)
        ensures
            url@ == self.result_endpoint(task_id@),
    {
        let mut url = self.base_url.clone();
        url.append("/v1/result/");
        url.append(task_id);
        url
    }

    /// Gives the address of the health probe.
    pub fn get_health_endpoint(&self) -> (url: String)
        ensures
            url@ == self.health_endpoint(),
    {
        let mut url = self.base_url.clone();
        url.append("/health");
        url
    }

    /// Gives the value of the `Authorization` header, if a key is set.
    pub fn authorization_header(&self) -> (header: Option<String>)
        ensures
            header is Some == self.authorization() is Some,
            header matches Some(value) ==> Some(value@) == self.authorization(),
    {
        match &self.api_key {
            Some(key) => {
                let mut value = String::from_str("Bearer ");
                value.append(key.as_str());
                Some(value)
            },
            None => None,
        }
    }

    /// The time-out of the HTTP client in seconds: the document time-out and half a minute
    /// more for the transfer.
    pub fn client_timeout_secs(&self) -> (secs: u64)
        requires
            self.document_timeout_secs + 30 <= u64::MAX,
        ensures
            secs == self.document_timeout_secs + 30,
    {
        self.document_timeout_secs + 30
    }
}

} // verus!
