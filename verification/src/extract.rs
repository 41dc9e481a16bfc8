//! Turning what the conversion service returned into the files to store: which fields of the
//! payload become artifacts, under which paths, and which artifact is the primary output.

use vstd::prelude::*;
use vstd::string::StringExecFns;
use crate::cache::{artifact_path, artifact_path_of, CacheEntry, FileIdentity};
use crate::error::{invalid_response, JobError};
use crate::json::{is_null, items_of, json_is_null, json_items, json_member, json_pretty, json_text, member, pretty, text_of};
use crate::text::{blank, is_blank, str_eq};

verus! {

/// One file to store in the cache directory.
#[derive(Debug)]
pub struct Artifact {
    pub path: String,
    pub extension: String,
    pub content: String,
}

/// An artifact as plain text values.
pub struct ArtifactView {
    pub path: Seq<char>,
    pub extension: Seq<char>,
    pub content: Seq<char>,
}

impl View for Artifact {
    type V = ArtifactView;

    open spec fn view(&self) -> ArtifactView {
        ArtifactView { path: self.path@, extension: self.extension@, content: self.content@ }
    }
}

impl Artifact {
    /// The failure of the file being converted when this artifact could not be written;
    /// `reason` says why.
    pub fn write_failure(&self, reason: &str) -> (error: JobError)
        ensures
            error == JobError::InvalidResponse(error->InvalidResponse_0),
            error.message() == "Failed to write "@ + self.extension@ + " file: "@ + reason@,
    {
        let mut prefix = String::from_str("Failed to write ");
        prefix.append(self.extension.as_str());
        prefix.append(" file: ");
        invalid_response(prefix.as_str(), reason)
    }
}

impl DeepView for Artifact {
    type V = ArtifactView;

    open spec fn deep_view(&self) -> ArtifactView {
        self@
    }
}

/// The artifact with `extension` and `content` for the input named `file_name`.
pub open spec fn artifact(
    cache_dir: Seq<char>,
    file_name: Seq<char>,
    extension: Seq<char>,
    content: Seq<char>,
) -> ArtifactView {
    ArtifactView { path: artifact_path(cache_dir, file_name, extension), extension, content }
}

/// What one document holds in the fields that are looked at: the seven text fields, each as
/// the text it holds, and the structured content as indented JSON. A field is `None` where
/// the document has no such text.
#[derive(Debug)]
pub struct DocumentFields<'a> {
    pub md_content: Option<&'a str>,
    pub html_content: Option<&'a str>,
    pub text_content: Option<&'a str>,
    pub doctags_content: Option<&'a str>,
    pub markdown: Option<&'a str>,
    pub html: Option<&'a str>,
    pub text: Option<&'a str>,
    pub json_content: Option<&'a str>,
}

/// The fields of a document as plain text values.
pub struct FieldsView {
    pub md_content: Option<Seq<char>>,
    pub html_content: Option<Seq<char>>,
    pub text_content: Option<Seq<char>>,
    pub doctags_content: Option<Seq<char>>,
    pub markdown: Option<Seq<char>>,
    pub html: Option<Seq<char>>,
    pub text: Option<Seq<char>>,
    pub json_content: Option<Seq<char>>,
}

/// A text that may be missing, as plain values.
pub open spec fn text_view(text: Option<&str>) -> Option<Seq<char>> {
    match text {
        Some(held) => Some(held@),
        None => None,
    }
}

impl<'a> View for DocumentFields<'a> {
    type V = FieldsView;

    open spec fn view(&self) -> FieldsView {
        FieldsView {
            md_content: text_view(self.md_content),
            html_content: text_view(self.html_content),
            text_content: text_view(self.text_content),
            doctags_content: text_view(self.doctags_content),
            markdown: text_view(self.markdown),
            html: text_view(self.html),
            text: text_view(self.text),
            json_content: text_view(self.json_content),
        }
    }
}

/// The text of a field that is worth storing: the field is there and holds more than white
/// space.
pub open spec fn content_of(held: Option<Seq<char>>) -> Option<Seq<char>> {
    match held {
        Some(text) => if is_blank(text) {
            None
        } else {
            Some(text)
        },
        None => None,
    }
}

/// The artifact, if any, that one text field gives.
pub open spec fn text_artifact(
    cache_dir: Seq<char>,
    file_name: Seq<char>,
    held: Option<Seq<char>>,
    extension: Seq<char>,
) -> Seq<ArtifactView> {
    match content_of(held) {
        Some(text) => seq![artifact(cache_dir, file_name, extension, text)],
        None => Seq::empty(),
    }
}

/// The artifacts of the text fields, in the order in which the fields are probed: Markdown,
/// HTML, plain text, DocTags, then the older names of the first three.
pub open spec fn text_artifacts(cache_dir: Seq<char>, file_name: Seq<char>, fields: FieldsView) -> Seq<
    ArtifactView,
> {
    text_artifact(cache_dir, file_name, fields.md_content, "md"@) + text_artifact(
        cache_dir,
        file_name,
        fields.html_content,
        "html"@,
    ) + text_artifact(cache_dir, file_name, fields.text_content, "txt"@) + text_artifact(
        cache_dir,
        file_name,
        fields.doctags_content,
        "doctags"@,
    ) + text_artifact(cache_dir, file_name, fields.markdown, "md"@) + text_artifact(
        cache_dir,
        file_name,
        fields.html,
        "html"@,
    ) + text_artifact(cache_dir, file_name, fields.text, "txt"@)
}

/// The JSON artifact, if any, that the structured content gives. It is stored as it is,
/// blank or not.
pub open spec fn structured_artifact(
    cache_dir: Seq<char>,
    file_name: Seq<char>,
    held: Option<Seq<char>>,
) -> Seq<ArtifactView> {
    match held {
        Some(text) => seq![artifact(cache_dir, file_name, "json"@, text)],
        None => Seq::empty(),
    }
}

/// All artifacts of the fields of one document: those of its text fields, then that of its
/// structured content.
pub open spec fn field_artifacts(cache_dir: Seq<char>, file_name: Seq<char>, fields: FieldsView) -> Seq<
    ArtifactView,
> {
    text_artifacts(cache_dir, file_name, fields) + structured_artifact(
        cache_dir,
        file_name,
        fields.json_content,
    )
}

fn push_text_artifact(
    cache_dir: &str,
    file_name: &str,
    held: Option<&str>,
    extension: &str,
    artifacts: &mut Vec<Artifact>,
)
    ensures
        final(artifacts).deep_view() == old(artifacts).deep_view() + text_artifact(
            cache_dir@,
            file_name@,
            text_view(held),
            extension@,
        ),
{
    let ghost before = artifacts.deep_view();
    if let Some(text) = held {
        if !blank(text) {
            artifacts.push(
                Artifact {
                    path: artifact_path_of(cache_dir, file_name, extension),
                    extension: String::from_str(extension),
                    content: String::from_str(text),
                },
            );
            assert(artifacts.deep_view() =~= before.push(
                artifact(cache_dir@, file_name@, extension@, text@),
            ));
        }
    }
    assert(artifacts.deep_view() =~= before + text_artifact(
        cache_dir@,
        file_name@,
        text_view(held),
        extension@,
    ));
}

/// Turns the fields of one document into the artifacts to store for the input named
/// `file_name`. Every text field that holds more than white space gives an artifact of its
/// own, under the extension of its kind and in the order of priority; the structured content
/// gives a JSON artifact after them.
pub fn artifacts_of_fields(cache_dir: &str, file_name: &str, fields: &DocumentFields) -> (artifacts:
    Vec<Artifact>)
    ensures
        artifacts.deep_view() == field_artifacts(cache_dir@, file_name@, fields@),
{
    let mut artifacts: Vec<Artifact> = Vec::new();
    assert(artifacts.deep_view() =~= Seq::<ArtifactView>::empty());
    push_text_artifact(cache_dir, file_name, fields.md_content, "md", &mut artifacts);
    push_text_artifact(cache_dir, file_name, fields.html_content, "html", &mut artifacts);
    push_text_artifact(cache_dir, file_name, fields.text_content, "txt", &mut artifacts);
    push_text_artifact(cache_dir, file_name, fields.doctags_content, "doctags", &mut artifacts);
    push_text_artifact(cache_dir, file_name, fields.markdown, "md", &mut artifacts);
    push_text_artifact(cache_dir, file_name, fields.html, "html", &mut artifacts);
    push_text_artifact(cache_dir, file_name, fields.text, "txt", &mut artifacts);
    assert(artifacts.deep_view() =~= text_artifacts(cache_dir@, file_name@, fields@));
    let ghost texts = artifacts.deep_view();
    if let Some(text) = fields.json_content {
        artifacts.push(
            Artifact {
                path: artifact_path_of(cache_dir, file_name, "json"),
                extension: String::from_str("json"),
                content: String::from_str(text),
            },
        );
        assert(artifacts.deep_view() =~= texts.push(
            artifact(cache_dir@, file_name@, "json"@, text@),
        ));
    }
    assert(artifacts.deep_view() =~= field_artifacts(cache_dir@, file_name@, fields@));
    artifacts
}

/// The text that `document` holds in `field`, where the member is a JSON string.
pub open spec fn text_field(document: serde_json::Value, field: Seq<char>) -> Option<Seq<char>> {
    match json_member(document, field) {
        Some(found) => json_text(found),
        None => None,
    }
}

/// The text of `field` that is worth storing: the member is a JSON string with more in it
/// than white space.
pub open spec fn field_content(document: serde_json::Value, field: Seq<char>) -> Option<Seq<char>> {
    content_of(text_field(document, field))
}

/// The structured content of `document`: its member `json_content` where that is there and
/// not `null`.
pub open spec fn structured_content(document: serde_json::Value) -> Option<serde_json::Value> {
    match json_member(document, "json_content"@) {
        Some(found) => if json_is_null(found) {
            None
        } else {
            Some(found)
        },
        None => None,
    }
}

/// The message of the error that ends an extraction when the structured content of
/// `document` cannot be written out as JSON; `None` where it can, or where there is none.
pub open spec fn structured_failure(document: serde_json::Value) -> Option<Seq<char>> {
    match structured_content(document) {
        Some(found) => match json_pretty(found) {
            Ok(_) => None,
            Err(reason) => Some("Failed to serialize json_content: "@ + reason),
        },
        None => None,
    }
}

/// The structured content of `document` as indented JSON.
pub open spec fn structured_text(document: serde_json::Value) -> Option<Seq<char>> {
    match structured_content(document) {
        Some(found) => match json_pretty(found) {
            Ok(text) => Some(text),
            Err(_) => None,
        },
        None => None,
    }
}

/// The fields that `document` holds.
pub open spec fn document_fields(document: serde_json::Value) -> FieldsView {
    FieldsView {
        md_content: text_field(document, "md_content"@),
        html_content: text_field(document, "html_content"@),
        text_content: text_field(document, "text_content"@),
        doctags_content: text_field(document, "doctags_content"@),
        markdown: text_field(document, "markdown"@),
        html: text_field(document, "html"@),
        text: text_field(document, "text"@),
        json_content: structured_text(document),
    }
}

/// All artifacts of one document.
pub open spec fn document_artifacts(
    cache_dir: Seq<char>,
    file_name: Seq<char>,
    document: serde_json::Value,
) -> Seq<ArtifactView> {
    field_artifacts(cache_dir, file_name, document_fields(document))
}

fn read_text<'a>(document: &'a serde_json::Value, field: &str) -> (held: Option<&'a str>)
    ensures
        text_view(held) == text_field(*document, field@),
{
    match member(document, field) {
        Some(found) => text_of(found),
        None => None,
    }
}

/// Collects the artifacts of one document: reads its fields and turns them into artifacts
/// as `artifacts_of_fields` does. The only failure is structured content that cannot be
/// written out.
pub fn extract_content_from_document(
    cache_dir: &str,
    file_name: &str,
    document: &serde_json::Value,
) -> (extracted: Result<Vec<Artifact>, JobError>)
    ensures
        extracted is Err == structured_failure(*document) is Some,
        extracted matches Ok(artifacts) ==> artifacts.deep_view() == document_artifacts(
            cache_dir@,
            file_name@,
            *document,
        ),
        extracted matches Err(error) ==> error == JobError::InvalidResponse(error->InvalidResponse_0)
            && Some(error.message()) == structured_failure(*document),
{
    let structured: Option<String> = match member(document, "json_content") {
        Some(found) => {
            if is_null(found) {
                None
            } else {
                match pretty(found) {
                    Ok(text) => Some(text),
                    Err(reason) => {
                        return Err(
                            invalid_response("Failed to serialize json_content: ", reason.as_str()),
                        );
                    },
                }
            }
        },
        None => None,
    };
    let fields = DocumentFields {
        md_content: read_text(document, "md_content"),
        html_content: read_text(document, "html_content"),
        text_content: read_text(document, "text_content"),
        doctags_content: read_text(document, "doctags_content"),
        markdown: read_text(document, "markdown"),
        html: read_text(document, "html"),
        text: read_text(document, "text"),
        json_content: match &structured {
            Some(text) => Some(text.as_str()),
            None => None,
        },
    };
    assert(fields@ == document_fields(*document));
    Ok(artifacts_of_fields(cache_dir, file_name, &fields))
}

/// The document to extract from: the member `document` of the payload where it has one;
/// else the first element where its member `documents` is an array, and none where that
/// array is empty; else the payload itself.
pub open spec fn selected_document(payload: serde_json::Value) -> Option<serde_json::Value> {
    match json_member(payload, "document"@) {
        Some(document) => Some(document),
        None => match json_member(payload, "documents"@) {
            Some(list) => match json_items(list) {
                Some(items) => if items.len() > 0 {
                    Some(items[0])
                } else {
                    None
                },
                None => Some(payload),
            },
            None => Some(payload),
        },
    }
}

/// Picks the document to extract from.
pub fn select_document<'a>(payload: &'a serde_json::Value) -> (document: Option<
    &'a serde_json::Value,
>)
    ensures
        document is Some == selected_document(*payload) is Some,
        document matches Some(d) ==> selected_document(*payload) == Some(*d),
{
    match member(payload, "document") {
        Some(document) => Some(document),
        None => match member(payload, "documents") {
            Some(list) => match items_of(list) {
                Some(items) => if items.len() > 0 {
                    Some(&items[0])
                } else {
                    None
                },
                None => Some(payload),
            },
            None => Some(payload),
        },
    }
}

/// Whether an artifact is a Markdown file.
pub open spec fn is_markdown(artifact: ArtifactView) -> bool {
    artifact.extension == "md"@
}

/// Whether `primary` is the artifact to hand back as the result: the first Markdown artifact,
/// or the first artifact of all where none is Markdown.
pub open spec fn is_primary(artifacts: Seq<ArtifactView>, primary: int) -> bool {
    &&& 0 <= primary < artifacts.len()
    &&& forall|j: int| 0 <= j < primary ==> !is_markdown(#[trigger] artifacts[j])
    &&& is_markdown(artifacts[primary]) || (primary == 0 && forall|j: int|
        0 <= j < artifacts.len() ==> !is_markdown(#[trigger] artifacts[j]))
}

/// Selects the primary output among `artifacts`.
pub fn select_primary(artifacts: &Vec<Artifact>) -> (primary: usize)
    requires
        artifacts@.len() > 0,
    ensures
        is_primary(artifacts.deep_view(), primary as int),
{
    let n = artifacts.len();
    let mut i: usize = 0;
    while i < n
        invariant
            n == artifacts@.len(),
            i <= n,
            forall|j: int| 0 <= j < i ==> !is_markdown(#[trigger] artifacts.deep_view()[j]),
        decreases n - i,
    {
        if str_eq(artifacts[i].extension.as_str(), "md") {
            assert(is_markdown(artifacts.deep_view()[i as int]));
            return i;
        }
        assert(!is_markdown(artifacts.deep_view()[i as int]));
        i += 1;
    }
    0
}

/// The artifacts of the document selected from `payload`.
pub open spec fn selected_artifacts(
    cache_dir: Seq<char>,
    file_name: Seq<char>,
    payload: serde_json::Value,
) -> Seq<ArtifactView> {
    match selected_document(payload) {
        Some(document) => document_artifacts(cache_dir, file_name, document),
        None => Seq::empty(),
    }
}

/// The artifacts to store for `payload`: those of the selected document, or, where it gives
/// none, the whole payload written out as indented JSON.
pub open spec fn payload_artifacts(
    cache_dir: Seq<char>,
    file_name: Seq<char>,
    payload: serde_json::Value,
) -> Seq<ArtifactView> {
    let found = selected_artifacts(cache_dir, file_name, payload);
    if found.len() > 0 {
        found
    } else {
        match json_pretty(payload) {
            Ok(text) => seq![artifact(cache_dir, file_name, "json"@, text)],
            Err(_) => Seq::empty(),
        }
    }
}

/// The message of the error that ends the extraction from `payload`, `None` where it
/// succeeds: the structured content of the selected document cannot be written out, or the
/// document gives no artifact and the payload itself cannot be written out.
pub open spec fn payload_failure(
    cache_dir: Seq<char>,
    file_name: Seq<char>,
    payload: serde_json::Value,
) -> Option<Seq<char>> {
    let failure = match selected_document(payload) {
        Some(document) => structured_failure(document),
        None => None,
    };
    if failure is Some {
        failure
    } else if selected_artifacts(cache_dir, file_name, payload).len() > 0 {
        None
    } else {
        match json_pretty(payload) {
            Ok(_) => None,
            Err(reason) => Some("Failed to serialize response: "@ + reason),
        }
    }
}

/// The files to store for one converted input, and which of them is the primary output.
/// `fallback` marks the extraction that stores the whole payload because nothing was found
/// in it.
#[derive(Debug)]
pub struct Extraction {
    pub artifacts: Vec<Artifact>,
    pub primary: usize,
    pub fallback: bool,
}

/// The message of the failure to write an artifact with `extension`; the whole payload
/// stored as a fallback has a message of its own.
pub open spec fn write_failure_message(fallback: bool, extension: Seq<char>, reason: Seq<char>) -> Seq<
    char,
> {
    if fallback {
        "Failed to write fallback JSON file: "@ + reason
    } else {
        "Failed to write "@ + extension + " file: "@ + reason
    }
}

impl Extraction {
    /// There is at least one artifact, and the primary output is one of them.
    pub open spec fn well_formed(&self) -> bool {
        self.primary < self.artifacts@.len()
    }

    /// The path of the primary output.
    pub open spec fn primary_path(&self) -> Seq<char> {
        self.artifacts@[self.primary as int].path@
    }

    /// The extraction that stores `artifacts`, found in a document: the primary output is
    /// the first Markdown artifact, or the first artifact where there is no Markdown.
    pub fn of(artifacts: Vec<Artifact>) -> (extraction: Extraction)
        requires
            artifacts@.len() > 0,
        ensures
            extraction.artifacts == artifacts,
            extraction.well_formed(),
            is_primary(artifacts.deep_view(), extraction.primary as int),
            !extraction.fallback,
    {
        let primary = select_primary(&artifacts);
        Extraction { artifacts, primary, fallback: false }
    }

    /// The extraction that stores the whole payload, written out as `raw`, for the input
    /// named `file_name`: one JSON artifact, which is the primary output.
    pub fn whole_payload(cache_dir: &str, file_name: &str, raw: String) -> (extraction: Extraction)
        ensures
            extraction.artifacts.deep_view() == seq![
                artifact(cache_dir@, file_name@, "json"@, raw@),
            ],
            extraction.well_formed(),
            extraction.primary == 0,
            extraction.fallback,
    {
        let mut artifacts: Vec<Artifact> = Vec::new();
        artifacts.push(
            Artifact {
                path: artifact_path_of(cache_dir, file_name, "json"),
                extension: String::from_str("json"),
                content: raw,
            },
        );
        assert(artifacts.deep_view() =~= seq![artifact(cache_dir@, file_name@, "json"@, raw@)]);
        Extraction { artifacts, primary: 0, fallback: true }
    }

    /// The failure of the file being converted when the artifact at `index` could not be
    /// written; `reason` says why.
    pub fn write_failure(&self, index: usize, reason: &str) -> (error: JobError)
        requires
            index < self.artifacts@.len(),
        ensures
            error == JobError::InvalidResponse(error->InvalidResponse_0),
            error.message() == write_failure_message(
                self.fallback,
                self.artifacts@[index as int].extension@,
                reason@,
            ),
    {
        if self.fallback {
            invalid_response("Failed to write fallback JSON file: ", reason)
        } else {
            self.artifacts[index].write_failure(reason)
        }
    }

    /// The cache entry to store once the artifacts are written: it records the state of the
    /// input `file` at that time and the path of the primary output.
    pub fn cache_entry(&self, file: &FileIdentity) -> (entry: CacheEntry)
        requires
            self.well_formed(),
        ensures
            entry.valid_for(file),
            entry.parsed_path@ == self.primary_path(),
    {
        CacheEntry::record(file, self.primary_output())
    }

    /// Gives the path of the primary output.
    pub fn primary_output(&self) -> (path: &str)
        requires
            self.well_formed(),
        ensures
            path@ == self.primary_path(),
    {
        self.artifacts[self.primary].path.as_str()
    }
}

/// Decides what to store for the payload that the service returned for the input named
/// `file_name`. Every text field of the selected document that holds more than white space
/// becomes an artifact, in the order of priority, and its structured content another; a
/// payload in which nothing is found is stored whole, as indented JSON. The primary output is
/// the first Markdown artifact, or the first artifact where there is no Markdown.
pub fn content_files(cache_dir: &str, file_name: &str, payload: &serde_json::Value) -> (planned:
    Result<Extraction, JobError>)
    ensures
        planned is Err == payload_failure(cache_dir@, file_name@, *payload) is Some,
        planned matches Ok(extraction) ==> {
            &&& extraction.artifacts.deep_view() == payload_artifacts(
                cache_dir@,
                file_name@,
                *payload,
            )
            &&& extraction.well_formed()
            &&& is_primary(extraction.artifacts.deep_view(), extraction.primary as int)
            &&& extraction.fallback == (selected_artifacts(cache_dir@, file_name@, *payload).len()
                == 0)
        },
        planned matches Err(error) ==> error == JobError::InvalidResponse(error->InvalidResponse_0)
            && Some(error.message()) == payload_failure(cache_dir@, file_name@, *payload),
{
    let artifacts: Vec<Artifact> = match select_document(payload) {
        Some(document) => match extract_content_from_document(cache_dir, file_name, document) {
            Ok(found) => found,
            Err(error) => {
                return Err(error);
            },
        },
        None => Vec::new(),
    };
    assert(artifacts.deep_view() =~= selected_artifacts(cache_dir@, file_name@, *payload));
    if artifacts.len() > 0 {
        Ok(Extraction::of(artifacts))
    } else {
        match pretty(payload) {
            Ok(raw) => Ok(Extraction::whole_payload(cache_dir, file_name, raw)),
            Err(reason) => Err(
                invalid_response("Failed to serialize response: ", reason.as_str()),
            ),
        }
    }
}

/// Whenever one of the artifacts is Markdown, the primary output is Markdown.
pub proof fn lemma_markdown_is_preferred(artifacts: Seq<ArtifactView>, primary: int, other: int)
    requires
        is_primary(artifacts, primary),
        0 <= other < artifacts.len(),
        is_markdown(artifacts[other]),
    ensures
        is_markdown(artifacts[primary]),
        primary <= other,
{
}

/// Extraction priority. A document that holds both Markdown and HTML gives both artifacts,
/// the Markdown first, and the Markdown is the primary output.
pub proof fn lemma_markdown_and_html_are_both_stored(
    cache_dir: Seq<char>,
    file_name: Seq<char>,
    payload: serde_json::Value,
    document: serde_json::Value,
    primary: int,
)
    requires
        selected_document(payload) == Some(document),
        field_content(document, "md_content"@) is Some,
        field_content(document, "html_content"@) is Some,
        is_primary(payload_artifacts(cache_dir, file_name, payload), primary),
    ensures
        payload_artifacts(cache_dir, file_name, payload).len() >= 2,
        payload_artifacts(cache_dir, file_name, payload)[0] == artifact(
            cache_dir,
            file_name,
            "md"@,
            field_content(document, "md_content"@)->0,
        ),
        payload_artifacts(cache_dir, file_name, payload)[1] == artifact(
            cache_dir,
            file_name,
            "html"@,
            field_content(document, "html_content"@)->0,
        ),
        primary == 0,
{
}

} // verus!
