//! The AI fallback: fields that a language model extracted from the page
//! text, used only for fields that no configured source filled.

use vstd::prelude::*;
use crate::attribute::{Attribute, AttributeType, AttributeView, Author, AuthorView, author_views, opt_view};
use crate::datetime::{ai_date_of, parse_ai_date};
use crate::text::{trim_text, trimmed};

verus! {

/// The language-model services that can extract metadata.
#[derive(Clone, Copy, Debug, PartialEq, Eq, Structural)]
pub enum AiProvider {
    OpenAI,
    Anthropic,
}

/// Options for the AI fallback.
#[derive(Clone, Debug)]
pub struct AiExtractionOptions {
    /// Whether the fallback runs at all.
    pub enabled: bool,
    /// The service to ask.
    pub provider: AiProvider,
    /// The key for that service.
    pub api_key: Option<String>,
    /// The model to use; each service has a default.
    pub model: Option<String>,
}

/// The fields a language model extracted; each may be missing.
#[derive(Debug, Clone, PartialEq, Eq)]
pub struct AiExtractedMetadata {
    pub title: Option<String>,
    pub authors: Option<Vec<String>>,
    pub date: Option<String>,
    pub site: Option<String>,
    pub publisher: Option<String>,
    pub language: Option<String>,
}

impl Default for AiProvider {
    fn default() -> (r: Self)
        ensures
            r == AiProvider::OpenAI,
    {
        AiProvider::OpenAI
    }
}

impl Default for AiExtractionOptions {
    /// The fallback switched off.
    fn default() -> (r: Self)
        ensures
            !r.enabled && r.provider == AiProvider::OpenAI && r.api_key is None && r.model is None,
    {
        AiExtractionOptions { enabled: false, provider: AiProvider::OpenAI, api_key: None, model: None }
    }
}

impl Default for AiExtractedMetadata {
    /// Nothing extracted.
    fn default() -> (r: Self)
        ensures
            r.title is None && r.authors is None && r.date is None && r.site is None
                && r.publisher is None && r.language is None,
    {
        AiExtractedMetadata {
            title: None,
            authors: None,
            date: None,
            site: None,
            publisher: None,
            language: None,
        }
    }
}

/// The authors named by a list of names, unattributed.
pub open spec fn generic_authors(v: Seq<String>) -> Seq<AuthorView> {
    v.map_values(|s: String| AuthorView::Generic(s@))
}

/// What the extracted fields say of a field kind.
pub open spec fn ai_value(m: AiExtractedMetadata, t: AttributeType) -> Option<AttributeView> {
    match t {
        AttributeType::Title => match m.title {
            Some(s) => Some(AttributeView::Title(s@)),
            None => None,
        },
        AttributeType::Author => match m.authors {
            Some(v) => if v@.len() == 0 {
                None
            } else {
                Some(AttributeView::Authors(generic_authors(v@)))
            },
            None => None,
        },
        AttributeType::Date => match m.date {
            Some(s) => match ai_date_of(s@) {
                Some(d) => Some(AttributeView::Date(d)),
                None => None,
            },
            None => None,
        },
        AttributeType::Site => match m.site {
            Some(s) => Some(AttributeView::Site(s@)),
            None => None,
        },
        AttributeType::Publisher => match m.publisher {
            Some(s) => Some(AttributeView::Publisher(s@)),
            None => None,
        },
        AttributeType::Language => match m.language {
            Some(s) => Some(AttributeView::Language(s@)),
            None => None,
        },
        _ => None,
    }
}

fn text_or_none(o: &Option<String>) -> (r: Option<String>)
    ensures
        match *o {
            Some(s) => r matches Some(x) && x@ == s@,
            None => r is None,
        },
{
    match o {
        Some(s) => Some(s.clone()),
        None => None,
    }
}

/// The attribute that the extracted fields give for a field kind.
pub fn get_attribute_from_ai(metadata: &AiExtractedMetadata, attribute_type: AttributeType) -> (r:
    Option<Attribute>)
    ensures
        opt_view(r) == ai_value(*metadata, attribute_type),
{
    match attribute_type {
        AttributeType::Title => match text_or_none(&metadata.title) {
            Some(s) => Some(Attribute::Title(s)),
            None => None,
        },
        AttributeType::Author => match &metadata.authors {
            Some(names) => {
                if names.len() == 0 {
                    return None;
                }
                let mut authors: Vec<Author> = Vec::new();
                let mut i: usize = 0;
                while i < names.len()
                    invariant
                        i <= names@.len(),
                        author_views(authors@) == generic_authors(names@.take(i as int)),
                    decreases names@.len() - i,
                {
                    let ghost before = authors@;
                    authors.push(Author::Generic(names[i].clone()));
                    assert(author_views(authors@) =~= author_views(before).push(
                        AuthorView::Generic(names@[i as int]@),
                    ));
                    assert(generic_authors(names@.take(i + 1)) =~= generic_authors(
                        names@.take(i as int),
                    ).push(AuthorView::Generic(names@[i as int]@)));
                    i = i + 1;
                }
                assert(names@.take(names@.len() as int) =~= names@);
                Some(Attribute::Authors(authors))
            },
            None => None,
        },
        AttributeType::Date => match &metadata.date {
            Some(s) => match parse_ai_date(s.as_str()) {
                Some(d) => Some(Attribute::Date(d)),
                None => None,
            },
            None => None,
        },
        AttributeType::Site => match text_or_none(&metadata.site) {
            Some(s) => Some(Attribute::Site(s)),
            None => None,
        },
        AttributeType::Publisher => match text_or_none(&metadata.publisher) {
            Some(s) => Some(Attribute::Publisher(s)),
            None => None,
        },
        AttributeType::Language => match text_or_none(&metadata.language) {
            Some(s) => Some(Attribute::Language(s)),
            None => None,
        },
        _ => None,
    }
}

/// The instructions given to the model.
pub const SYSTEM_PROMPT: &'static str = "You are a metadata extraction assistant. Your task is to extract bibliographic reference information from web page content.\n\nExtract the following fields if present:\n- title: The main title of the article/page\n- authors: List of author names (as an array of strings). Look for bylines like \"By John Smith\" or author credits.\n- date: Publication date in ISO format (YYYY-MM-DD) if possible\n- site: The website or publication name (e.g., \"The New York Times\", \"BBC News\", \"Ekstra Bladet\")\n- publisher: The publishing organization or company. If publishing organization is not explicitly stated, use your best judgment based on the site.\n- language: ISO 639-1 language code (e.g., \"en\", \"de\", \"fr\", \"da\" for Danish)\n\nReturn ONLY a valid JSON object with these fields. Use null for fields you cannot determine.\nDo not include any explanation or markdown formatting.";

/// The instructions given to the model.
pub fn build_system_prompt() -> (r: String)
    ensures
        r@ == SYSTEM_PROMPT@,
{
    String::from_str(SYSTEM_PROMPT)
}

/// The request about one page: its URL and its text.
pub open spec fn user_prompt_text(url: Seq<char>, text: Seq<char>) -> Seq<char> {
    "Extract metadata from this web page.\n\nURL: "@ + url + "\n\nContent:\n"@ + text
}

/// The request about one page: its URL and its text.
pub fn build_user_prompt(url: &str, text_content: &str) -> (r: String)
    ensures
        r@ == user_prompt_text(url@, text_content@),
{
    let mut r = String::from_str("Extract metadata from this web page.\n\nURL: ");
    r.append(url);
    r.append("\n\nContent:\n");
    r.append(text_content);
    r
}

/// `text` with every match of the regular expression `pattern` replaced by
/// `rep`; `text` itself when the pattern does not compile.
pub uninterp spec fn replaced_of(pattern: Seq<char>, text: Seq<char>, rep: Seq<char>) -> Seq<char>;

/// Relies on regex's `Regex::new` and `Regex::replace_all`.
#[verifier::external_body]
fn replace_all(pattern: &str, text: &str, rep: &str) -> (r: String)
    ensures
        r@ == replaced_of(pattern@, text@, rep@),
{
    match regex::Regex::new(pattern) {
        Ok(re) => re.replace_all(text, rep).into_owned(),
        Err(_) => text.to_string(),
    }
}

/// `text` with its HTML character references decoded, if they all decode.
pub uninterp spec fn html_decoded_of(text: Seq<char>) -> Option<Seq<char>>;

/// Relies on htmlescape's `decode_html`.
#[verifier::external_body]
fn decode_html(text: &str) -> (r: Option<String>)
    ensures
        match r {
            Some(s) => html_decoded_of(text@) == Some(s@),
            None => html_decoded_of(text@) is None,
        },
{
    htmlescape::decode_html(text).ok()
}

/// Whether `text` is one JSON value.
pub uninterp spec fn json_parses_of(text: Seq<char>) -> bool;

/// Relies on serde_json's `from_str` into a `Value`: whether it succeeds.
#[verifier::external_body]
fn is_json(text: &str) -> (r: bool)
    ensures
        r == json_parses_of(text@),
{
    serde_json::from_str::<serde_json::Value>(text).is_ok()
}

/// Script elements, with their content.
pub const SCRIPT_PATTERN: &'static str = r"(?is)<script[^>]*>.*?</script>";

/// Style elements, with their content.
pub const STYLE_PATTERN: &'static str = r"(?is)<style[^>]*>.*?</style>";

/// Any tag.
pub const TAG_PATTERN: &'static str = r"<[^>]+>";

/// A run of whitespace.
pub const SPACE_PATTERN: &'static str = r"\s+";

/// The most characters of page text sent to a model.
pub const MAX_TEXT_CHARS: usize = 4000;

/// The readable text of a page: scripts and styles removed, tags turned into
/// spaces, character references decoded (when they all decode), whitespace
/// runs collapsed to one space, cut to its first 4000 characters and trimmed.
pub open spec fn page_text_of(html: Seq<char>) -> Seq<char> {
    let no_script = replaced_of(SCRIPT_PATTERN@, html, ""@);
    let no_style = replaced_of(STYLE_PATTERN@, no_script, ""@);
    let no_tags = replaced_of(TAG_PATTERN@, no_style, " "@);
    let decoded = match html_decoded_of(no_tags) {
        Some(d) => d,
        None => no_tags,
    };
    let spaced = replaced_of(SPACE_PATTERN@, decoded, " "@);
    let cut = if spaced.len() > MAX_TEXT_CHARS {
        spaced.take(MAX_TEXT_CHARS as int)
    } else {
        spaced
    };
    trimmed(cut)
}

/// The readable text of a page, as sent to a model.
pub fn extract_text_from_html(html: &str) -> (r: String)
    ensures
        r@ == page_text_of(html@),
{
    let no_script = replace_all(SCRIPT_PATTERN, html, "");
    let no_style = replace_all(STYLE_PATTERN, no_script.as_str(), "");
    let no_tags = replace_all(TAG_PATTERN, no_style.as_str(), " ");
    let decoded = match decode_html(no_tags.as_str()) {
        Some(d) => d,
        None => no_tags,
    };
    let spaced = replace_all(SPACE_PATTERN, decoded.as_str(), " ");
    let n = spaced.as_str().unicode_len();
    let end = if n > MAX_TEXT_CHARS {
        MAX_TEXT_CHARS
    } else {
        n
    };
    let cut = spaced.as_str().substring_char(0, end);
    proof {
        if n <= MAX_TEXT_CHARS {
            assert(spaced@.subrange(0, n as int) =~= spaced@);
        }
    }
    trim_text(cut)
}

/// Why an extraction failed.
#[derive(Debug, Clone, PartialEq, Eq)]
pub enum AiExtractionError {
    /// The service refused or failed.
    ApiError(String),
    /// The answer held no usable JSON.
    ParseError(String),
    /// No key was given for the service.
    NoApiKey,
    /// No model was chosen for a service that has no default.
    NoModel,
    /// The service could not be reached.
    CurlError,
    /// A JSON document could not be read.
    JsonError,
}

/// The index of the first `c` in `s`.
pub open spec fn first_index_of(s: Seq<char>, c: char) -> Option<int> {
    if exists|i: int| 0 <= i < s.len() && s[i] == c {
        Some(choose|i: int| 0 <= i < s.len() && s[i] == c && forall|j: int| 0 <= j < i ==> s[j] != c)
    } else {
        None
    }
}

/// The index of the last `c` in `s`.
pub open spec fn last_index_of(s: Seq<char>, c: char) -> Option<int> {
    if exists|i: int| 0 <= i < s.len() && s[i] == c {
        Some(choose|i: int| 0 <= i < s.len() && s[i] == c && forall|j: int| i < j < s.len() ==> s[j] != c)
    } else {
        None
    }
}

/// The JSON in a model's answer: the whole answer when it is JSON, else the
/// part from the first `{` to the last `}` when that is JSON.
pub open spec fn json_in_answer(text: Seq<char>) -> Option<Seq<char>> {
    if json_parses_of(text) {
        Some(text)
    } else {
        match (first_index_of(text, '{'), last_index_of(text, '}')) {
            (Some(a), Some(b)) => if a <= b && json_parses_of(text.subrange(a, b + 1)) {
                Some(text.subrange(a, b + 1))
            } else {
                None
            },
            _ => None,
        }
    }
}

fn find_first_char(s: &str, c: char) -> (r: Option<usize>)
    ensures
        r matches Some(i) ==> i < s@.len(),
        match r {
            Some(i) => first_index_of(s@, c) == Some(i as int),
            None => first_index_of(s@, c) is None,
        },
{
    let n = s.unicode_len();
    let mut i: usize = 0;
    while i < n
        invariant
            n == s@.len(),
            i <= n,
            forall|j: int| 0 <= j < i ==> s@[j] != c,
        decreases n - i,
    {
        if s.get_char(i) == c {
            proof {
                let k = choose|k: int| 0 <= k < s@.len() && s@[k] == c && forall|j: int| 0 <= j < k ==> s@[j] != c;
                if k < i {
                } else if k > i {
                }
                assert(k == i);
            }
            return Some(i);
        }
        i = i + 1;
    }
    None
}

fn find_last_char(s: &str, c: char) -> (r: Option<usize>)
    ensures
        r matches Some(i) ==> i < s@.len(),
        match r {
            Some(i) => last_index_of(s@, c) == Some(i as int),
            None => last_index_of(s@, c) is None,
        },
{
    let n = s.unicode_len();
    let mut i: usize = n;
    while i > 0
        invariant
            n == s@.len(),
            i <= n,
            forall|j: int| i <= j < n ==> s@[j] != c,
        decreases i,
    {
        if s.get_char(i - 1) == c {
            proof {
                let k = choose|k: int| 0 <= k < s@.len() && s@[k] == c && forall|j: int| k < j < s@.len() ==> s@[j] != c;
                if k < i - 1 {
                } else if k > i - 1 {
                }
                assert(k == i - 1);
            }
            return Some(i - 1);
        }
        i = i - 1;
    }
    None
}

/// Finds the JSON object in a model's answer, which may hold other text.
#[verifier::rlimit(50)]
pub fn extract_json_from_text(text: &str) -> (r: Result<String, AiExtractionError>)
    ensures
        match json_in_answer(text@) {
            Some(j) => r matches Ok(s) && s@ == j,
            None => r matches Err(AiExtractionError::ParseError(_)),
        },
{
    if is_json(text) {
        return Ok(String::from_str(text));
    }
    let n = text.unicode_len();
    let first = find_first_char(text, '{');
    let last = find_last_char(text, '}');
    assert(!json_parses_of(text@));
    match (first, last) {
        (Some(start), Some(end)) => {
            if start <= end {
                let part = text.substring_char(start, end + 1);
                if is_json(part) {
                    return Ok(String::from_str(part));
                }
            }
        },
        _ => {},
    }
    Err(AiExtractionError::ParseError(String::from_str("Could not find valid JSON in response")))
}

/// What to send to the model service.
#[derive(Debug, Clone, PartialEq, Eq)]
pub struct AiRequest {
    pub provider: AiProvider,
    pub model: String,
    pub api_key: String,
    pub system_prompt: String,
    pub user_prompt: String,
}

/// The model used with OpenAI when none is chosen.
pub const OPENAI_DEFAULT_MODEL: &'static str = "gpt-4o-mini";

/// Prepares the extraction request for a page: nothing to ask when the
/// fallback is off, an error when no key is given or when Anthropic is to be
/// asked without a chosen model, else the request with the chosen model (for
/// OpenAI, its default when none is chosen) and the prompts about the page's
/// text.
pub fn extract_metadata(url: &str, html_content: &str, options: &AiExtractionOptions) -> (r: Result<
    Option<AiRequest>,
    AiExtractionError,
>)
    ensures
        !options.enabled ==> r == Ok::<Option<AiRequest>, AiExtractionError>(None),
        options.enabled && options.api_key is None ==> r == Err::<Option<AiRequest>, AiExtractionError>(
            AiExtractionError::NoApiKey,
        ),
        options.enabled && options.api_key is Some && options.model is None && options.provider
            == AiProvider::Anthropic ==> r == Err::<Option<AiRequest>, AiExtractionError>(
            AiExtractionError::NoModel,
        ),
        options.enabled && options.api_key is Some && (options.model is Some || options.provider
            == AiProvider::OpenAI) ==> (r matches Ok(Some(q)) && q.provider
            == options.provider && q.api_key@ == options.api_key->0@ && q.model@ == match options.model {
            Some(m) => m@,
            None => OPENAI_DEFAULT_MODEL@,
        } && q.system_prompt@ == SYSTEM_PROMPT@ && q.user_prompt@ == user_prompt_text(
            url@,
            page_text_of(html_content@),
        )),
{
    if !options.enabled {
        return Ok(None);
    }
    let api_key = match &options.api_key {
        Some(k) => k.clone(),
        None => {
            return Err(AiExtractionError::NoApiKey);
        },
    };
    let model = match &options.model {
        Some(m) => m.clone(),
        None => match options.provider {
            AiProvider::OpenAI => String::from_str(OPENAI_DEFAULT_MODEL),
            AiProvider::Anthropic => {
                return Err(AiExtractionError::NoModel);
            },
        },
    };
    let text_content = extract_text_from_html(html_content);
    Ok(
        Some(
            AiRequest {
                provider: options.provider,
                model,
                api_key,
                system_prompt: build_system_prompt(),
                user_prompt: build_user_prompt(url, text_content.as_str()),
            },
        ),
    )
}

} // verus!
