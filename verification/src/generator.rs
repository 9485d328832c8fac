//! The scaffolding generator: the data each template is rendered with, the
//! names of the files it writes, and the rendering itself.

use vstd::prelude::*;
use crate::json::JsonValue;
use crate::text::{chars_of, decimal, write_decimal};

verus! {

/// `std::time::SystemTime`, held opaque.
#[verifier::external_type_specification]
#[verifier::external_body]
pub struct ExSystemTime(std::time::SystemTime);

/// `std::time::SystemTimeError`, held opaque.
#[verifier::external_type_specification]
#[verifier::external_body]
pub struct ExSystemTimeError(std::time::SystemTimeError);

/// `SystemTime::now` from std. Nothing is claimed: it reads the clock.
#[verifier::external_body]
fn system_time_now() -> std::time::SystemTime {
    std::time::SystemTime::now()
}

/// `SystemTime::duration_since(UNIX_EPOCH)` from std: the time elapsed since
/// the Unix epoch, or an error when `t` lies before it. Nothing is claimed
/// of the duration, which is opaque here.
#[verifier::external_body]
fn since_unix_epoch(t: &std::time::SystemTime) -> std::result::Result<std::time::Duration, std::time::SystemTimeError> {
    t.duration_since(std::time::UNIX_EPOCH)
}

/// `Duration::as_secs` from std: the whole seconds of a duration. Nothing is
/// claimed: the duration is opaque here.
#[verifier::external_body]
fn duration_as_secs(d: &std::time::Duration) -> u64 {
    d.as_secs()
}

/// The generation date written into entities: whole days, hours and
/// minutes since the Unix epoch, as `1970+{days}d {hours}h:{minutes}m`.
pub open spec fn lite_date_spec(secs: u64) -> Seq<char> {
    let days = secs / 86400;
    let secs_in_day = secs % 86400;
    "1970+"@ + decimal(days as nat) + "d "@ + decimal((secs_in_day / 3600) as nat) + "h:"@
        + decimal(((secs_in_day % 3600) / 60) as nat) + "m"@
}

/// Formats a number of seconds since the epoch as a generation date.
pub fn lite_date(secs: u64) -> (s: String)
    ensures
        s@ == lite_date_spec(secs),
{
    let days = secs / 86400;
    let secs_in_day = secs % 86400;
    let hours = secs_in_day / 3600;
    let minutes = (secs_in_day % 3600) / 60;
    let mut s = String::from_str("1970+");
    write_decimal(&mut s, days);
    s.append("d ");
    write_decimal(&mut s, hours);
    s.append("h:");
    write_decimal(&mut s, minutes);
    s.append("m");
    s
}

/// The generation date for a reading of the clock: the whole seconds
/// elapsed since the epoch, where `None` (a clock before the epoch) counts
/// as the epoch itself.
pub fn lite_date_from_clock(elapsed_secs: Option<u64>) -> (s: String)
    ensures
        s@ == lite_date_spec(
            match elapsed_secs {
                Some(n) => n,
                None => 0,
            },
        ),
{
    let secs = match elapsed_secs {
        Some(n) => n,
        None => 0,
    };
    lite_date(secs)
}

/// The generation date of now: the whole seconds from the epoch to the
/// system clock, or the epoch when the clock reads earlier.
pub fn chrono_lite_date() -> (s: String)
    ensures
        exists|secs: u64| s@ == lite_date_spec(secs),
{
    let now = system_time_now();
    lite_date_from_clock(elapsed_secs(since_unix_epoch(&now)))
}

/// The whole seconds of the time elapsed since the epoch: there are some
/// exactly when the clock reads after the epoch, and they are the elapsed
/// duration's seconds.
pub fn elapsed_secs(
    since: std::result::Result<std::time::Duration, std::time::SystemTimeError>,
) -> (r: Option<u64>)
    ensures
        r is Some <==> since is Ok,
{
    match since {
        Ok(d) => Some(duration_as_secs(&d)),
        Err(_) => None,
    }
}

/// A value that a template can read: a string, or a list of strings.
#[derive(Clone, Debug)]
pub enum TemplateValue {
    Text(String),
    List(Vec<String>),
}

pub enum TemplateField {
    Text(Seq<char>),
    List(Seq<Seq<char>>),
}

impl View for TemplateValue {
    type V = TemplateField;

    open spec fn view(&self) -> TemplateField {
        match self {
            TemplateValue::Text(s) => TemplateField::Text(s@),
            TemplateValue::List(items) => TemplateField::List(items@.map_values(|s: String| s@)),
        }
    }
}

pub open spec fn template_data_view(data: Seq<(String, TemplateValue)>) -> Seq<(Seq<char>, TemplateField)> {
    data.map_values(|e: (String, TemplateValue)| (e.0@, e.1@))
}

pub open spec fn text_result(r: std::result::Result<String, String>) -> std::result::Result<Seq<char>, Seq<char>> {
    match r {
        Ok(s) => Ok(s@),
        Err(m) => Err(m@),
    }
}

/// A character that may stand between the `{{` that opens a tag and the
/// `>` of a partial call: a blank, or the `~` and `#` marks of the tag.
pub open spec fn partial_gap_char(c: char) -> bool {
    c == ' ' || c == '\t' || c == '\n' || c == '\r' || c == '~' || c == '#'
}

/// Whether a tag that calls a partial (`{{> name}}`, `{{#> name}}`, with
/// blanks or `~` allowed before the `>`) opens at position `i`.
pub open spec fn partial_call_at(t: Seq<char>, i: int) -> bool {
    &&& 0 <= i
    &&& i + 1 < t.len()
    &&& t[i] == '{'
    &&& t[i + 1] == '{'
    &&& exists|j: int|
        #![trigger t[j]]
        i + 2 <= j < t.len() && t[j] == '>' && forall|k: int| i + 2 <= k < j ==> partial_gap_char(#[trigger] t[k])
}

/// A template that calls no partial. Rendering one that does can recurse
/// without end (an inline partial that calls itself), so the generator
/// renders only templates without partial calls.
pub open spec fn calls_no_partial(t: Seq<char>) -> bool {
    forall|i: int| !partial_call_at(t, i)
}

fn is_partial_gap_char(c: char) -> (b: bool)
    ensures
        b == partial_gap_char(c),
{
    c == ' ' || c == '\t' || c == '\n' || c == '\r' || c == '~' || c == '#'
}

/// Whether a template calls no partial, so that the generator may render it.
pub fn has_no_partial_call(template: &str) -> (b: bool)
    ensures
        b == calls_no_partial(template@),
{
    let cs = chars_of(template);
    let n = cs.len();
    let ghost t = template@;
    let mut i: usize = 0;
    while i < n
        invariant
            t == template@,
            cs@ == t,
            n == t.len(),
            i <= n,
            forall|p: int| 0 <= p < i ==> !partial_call_at(t, p),
        decreases n - i,
    {
        if i + 1 < n && cs[i] == '{' && cs[i + 1] == '{' {
            let mut j: usize = i + 2;
            while j < n && is_partial_gap_char(cs[j])
                invariant
                    cs@ == t,
                    n == t.len(),
                    i + 2 <= j <= n,
                    forall|k: int| i + 2 <= k < j ==> partial_gap_char(#[trigger] t[k]),
                decreases n - j,
            {
                j = j + 1;
            }
            if j < n && cs[j] == '>' {
                assert(!calls_no_partial(t)) by {
                    assert(t[j as int] == '>');
                    assert(partial_call_at(t, i as int));
                }
                return false;
            }
            assert(!partial_call_at(t, i as int)) by {
                if partial_call_at(t, i as int) {
                    let w = choose|w: int|
                        #![trigger t[w]]
                        i + 2 <= w < t.len() && t[w] == '>' && forall|k: int| i + 2 <= k < w ==> partial_gap_char(#[trigger] t[k]);
                    if w < j {
                        assert(partial_gap_char(t[w]));
                    } else if w > j {
                        assert(partial_gap_char(t[j as int]));
                    }
                }
            }
        }
        i = i + 1;
    }
    true
}

/// What `handlebars::Handlebars::render_template` gives for a template and
/// a JSON object with the given members, in a registry with the given strict
/// mode: the rendered text, or the text of the `RenderError`.
pub uninterp spec fn handlebars_render(
    template: Seq<char>,
    data: Seq<(Seq<char>, TemplateField)>,
    strict: bool,
) -> std::result::Result<Seq<char>, Seq<char>>;

/// `Handlebars::render_template` on a fresh registry with the given strict
/// mode, the data given as a JSON object of strings and string lists, and
/// the error turned into its message. Claimed: the outcome is
/// `handlebars_render` of the arguments. Templates that call partials are
/// left out, since an inline partial that calls itself, alone or through
/// another, never returns. Not claimed: that the call returns for a template
/// nested so deeply (blocks, subexpressions, literals) that parsing and
/// rendering, which recurse on that nesting, exhaust the thread's stack;
/// how deep that is depends on the machine.
#[verifier::external_body]
fn render_template(template: &str, data: &Vec<(String, TemplateValue)>, strict: bool) -> (r: std::result::Result<String, String>)
    requires
        calls_no_partial(template@),
    ensures
        text_result(r) == handlebars_render(template@, template_data_view(data@), strict),
{
    let mut registry = handlebars::Handlebars::new();
    registry.set_strict_mode(strict);
    let mut object = serde_json::Map::new();
    for (key, value) in data.iter() {
        let json = match value {
            TemplateValue::Text(s) => serde_json::Value::String(s.clone()),
            TemplateValue::List(items) => serde_json::Value::Array(items.iter().map(|s| serde_json::Value::String(s.clone())).collect()),
        };
        object.insert(key.clone(), json);
    }
    registry.render_template(template, &serde_json::Value::Object(object)).map_err(|e| e.to_string())
}

/// Errors of the generator.
#[derive(Debug)]
pub enum GeneratorError {
    Template(String),
    Io(std::io::Error),
    Generation(String),
}

impl GeneratorError {
    /// The human-readable message: `Template error: `, `IO error: ` or
    /// `Generation error: `, then the detail.
    pub fn message(&self) -> (m: String)
        ensures
            self matches GeneratorError::Template(s) ==> m@ == "Template error: "@ + s@,
            self matches GeneratorError::Generation(s) ==> m@ == "Generation error: "@ + s@,
            self is Io ==> exists|t: Seq<char>| m@ == "IO error: "@ + t,
    {
        let (prefix, detail) = match self {
            GeneratorError::Template(s) => ("Template error: ", s.clone()),
            GeneratorError::Io(e) => ("IO error: ", crate::errors::io_error_text(e)),
            GeneratorError::Generation(s) => ("Generation error: ", s.clone()),
        };
        let mut m = String::from_str(prefix);
        m.append(detail.as_str());
        m
    }
}

impl From<std::io::Error> for GeneratorError {
    fn from(e: std::io::Error) -> (r: Self) {
        GeneratorError::Io(e)
    }
}

impl vstd::std_specs::convert::FromSpecImpl<std::io::Error> for GeneratorError {
    open spec fn obeys_from_spec() -> bool {
        true
    }

    open spec fn from_spec(v: std::io::Error) -> Self {
        GeneratorError::Io(v)
    }
}

/// A file that the generator produces: its name and its text.
#[derive(Clone, Debug)]
pub struct GeneratedFile {
    pub file_name: String,
    pub content: String,
}

/// The data an entity template is rendered with.
pub open spec fn entity_data_spec(name: Seq<char>, generated_at: Seq<char>) -> Seq<(Seq<char>, TemplateField)> {
    seq![
        ("namespace"@, TemplateField::Text("App.Entities."@ + name)),
        ("entity_name"@, TemplateField::Text(name)),
        ("generated_at"@, TemplateField::Text(generated_at)),
        ("properties"@, TemplateField::List(Seq::empty())),
    ]
}

/// The data a page or hook template is rendered with.
pub open spec fn name_data_spec(name: Seq<char>) -> Seq<(Seq<char>, TemplateField)> {
    seq![("entity_name"@, TemplateField::Text(name))]
}

/// The file that rendering gives, or the template error.
pub open spec fn generated_spec(
    file_name: Seq<char>,
    rendered: std::result::Result<Seq<char>, Seq<char>>,
    r: std::result::Result<GeneratedFile, GeneratorError>,
) -> bool {
    match rendered {
        Ok(text) => r is Ok && r->Ok_0.file_name@ == file_name && r->Ok_0.content@ == text,
        Err(m) => r is Err && (r->Err_0 matches GeneratorError::Template(e) && e@ == m),
    }
}

/// The scaffolding generator. Templates are rendered in strict mode: a
/// template that reads a value the data does not hold fails.
pub struct Generator {
    pub strict_mode: bool,
}

impl Generator {
    /// A generator with strict rendering.
    pub fn new() -> (g: Self)
        ensures
            g.strict_mode,
    {
        Generator { strict_mode: true }
    }

    /// Generates from a named template; it does nothing yet and succeeds.
    pub fn generate(&self, template_name: &str, data: &JsonValue, output_path: &str) -> (r: std::result::Result<(), GeneratorError>)
        ensures
            r is Ok,
    {
        Ok(())
    }

    fn render(&self, template: &str, data: &Vec<(String, TemplateValue)>, file_name: String) -> (r: std::result::Result<GeneratedFile, GeneratorError>)
        requires
            calls_no_partial(template@),
        ensures
            generated_spec(file_name@, handlebars_render(template@, template_data_view(data@), self.strict_mode), r),
    {
        match render_template(template, data, self.strict_mode) {
            Ok(content) => Ok(GeneratedFile { file_name, content }),
            Err(m) => Err(GeneratorError::Template(m)),
        }
    }

    /// Renders a .NET entity `{name}.cs` in namespace `App.Entities.{name}`,
    /// from a template that calls no partial.
    pub fn render_entity(&self, template: &str, name: &str, generated_at: &str) -> (r: std::result::Result<GeneratedFile, GeneratorError>)
        requires
            calls_no_partial(template@),
        ensures
            generated_spec(
                name@ + ".cs"@,
                handlebars_render(template@, entity_data_spec(name@, generated_at@), self.strict_mode),
                r,
            ),
    {
        let mut namespace = String::from_str("App.Entities.");
        namespace.append(name);
        let data = vec![
            (String::from_str("namespace"), TemplateValue::Text(namespace)),
            (String::from_str("entity_name"), TemplateValue::Text(String::from_str(name))),
            (String::from_str("generated_at"), TemplateValue::Text(String::from_str(generated_at))),
            (String::from_str("properties"), TemplateValue::List(Vec::new())),
        ];
        assert(template_data_view(data@) =~= entity_data_spec(name@, generated_at@)) by {
            assert(data@[3].1@ == TemplateField::List(Seq::<Seq<char>>::empty())) by {
                if let TemplateValue::List(items) = data@[3].1 {
                    assert(items@.map_values(|s: String| s@) =~= Seq::<Seq<char>>::empty());
                }
            }
        }
        let mut file_name = String::from_str(name);
        file_name.append(".cs");
        self.render(template, &data, file_name)
    }

    fn name_data(name: &str) -> (d: Vec<(String, TemplateValue)>)
        ensures
            template_data_view(d@) == name_data_spec(name@),
    {
        let d = vec![(String::from_str("entity_name"), TemplateValue::Text(String::from_str(name)))];
        assert(template_data_view(d@) =~= name_data_spec(name@));
        d
    }

    /// Renders a Next.js page `{name}.tsx`, from a template that calls no
    /// partial.
    pub fn render_page(&self, template: &str, name: &str) -> (r: std::result::Result<GeneratedFile, GeneratorError>)
        requires
            calls_no_partial(template@),
        ensures
            generated_spec(
                name@ + ".tsx"@,
                handlebars_render(template@, name_data_spec(name@), self.strict_mode),
                r,
            ),
    {
        let mut file_name = String::from_str(name);
        file_name.append(".tsx");
        self.render(template, &Self::name_data(name), file_name)
    }

    /// Renders a React hook `use{name}s.ts`, from a template that calls no
    /// partial.
    pub fn render_hook(&self, template: &str, name: &str) -> (r: std::result::Result<GeneratedFile, GeneratorError>)
        requires
            calls_no_partial(template@),
        ensures
            generated_spec(
                "use"@ + name@ + "s"@ + ".ts"@,
                handlebars_render(template@, name_data_spec(name@), self.strict_mode),
                r,
            ),
    {
        let mut file_name = String::from_str("use");
        file_name.append(name);
        file_name.append("s");
        file_name.append(".ts");
        self.render(template, &Self::name_data(name), file_name)
    }
}

} // verus!
