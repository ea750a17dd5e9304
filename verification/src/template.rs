//! Rendering of DDL templates: `{name}` markers are replaced by the text that
//! the substitutions give for `name`.

use crate::error::{BuildError, ErrorKind};
use new_string_template::error::TemplateError;
use new_string_template::template::Template;
use std::collections::HashMap;
use vstd::prelude::*;

verus! {

/// `new_string_template::error::TemplateError`, the error of the template
/// engine.
#[verifier::external_type_specification]
#[verifier::external_body]
pub struct ExTemplateError(TemplateError);

/// The text that `new_string_template` renders from a template and a list of
/// substitutions (a later pair of the same name replaces an earlier one), or
/// `None` where it reports an error.
pub uninterp spec fn rendered(template: Seq<char>, subs: Seq<(Seq<char>, Seq<char>)>) -> Option<
    Seq<char>,
>;

/// The substitutions as pairs of texts.
pub open spec fn subs_view(subs: Seq<(String, String)>) -> Seq<(Seq<char>, Seq<char>)> {
    Seq::new(subs.len(), |i: int| (subs[i].0@, subs[i].1@))
}

/// A `{` after which no `}` follows.
pub open spec fn unterminated(template: Seq<char>) -> bool {
    exists|i: int|
        0 <= i < template.len() && template[i] == '{' && forall|j: int|
            i < j < template.len() ==> template[j] != '}'
}

/// What `render` returns: nothing for a template with an unterminated marker,
/// else what the template engine makes of it.
pub open spec fn render_spec(template: Seq<char>, subs: Seq<(Seq<char>, Seq<char>)>) -> Option<
    Seq<char>,
> {
    if unterminated(template) {
        None
    } else {
        rendered(template, subs)
    }
}

/// The substitutions of a table's DDL: its name and the type of its primary key.
pub open spec fn ddl_subs(name: Seq<char>, pk_type: Seq<char>) -> Seq<(Seq<char>, Seq<char>)> {
    seq![("table"@, name), ("pk_type"@, pk_type)]
}

/// Calls `Template::new(template).render(..)` of `new_string_template` with a
/// map made of `subs`. Trusted: the call succeeds exactly where `rendered` has
/// a text, and returns that text; a template without any `{` holds no marker
/// and comes back as it is.
#[verifier::external_body]
fn render_template(template: &str, subs: &Vec<(String, String)>) -> (r: Result<
    String,
    TemplateError,
>)
    ensures
        r is Ok <==> rendered(template@, subs_view(subs@)) is Some,
        r is Ok ==> r->Ok_0@ == rendered(template@, subs_view(subs@))->Some_0,
        !template@.contains('{') ==> r is Ok && r->Ok_0@ == template@,
{
    let mut values: HashMap<&str, &str> = HashMap::new();
    for (name, value) in subs.iter() {
        values.insert(name.as_str(), value.as_str());
    }
    Template::new(template).render(&values)
}

/// The text of a `TemplateError`, as its `Display` gives it.
#[verifier::external_body]
fn template_error_text(e: &TemplateError) -> (text: String) {
    format!("{e}")
}

/// Whether the template holds a `{` that no `}` follows.
pub fn has_unterminated_marker(template: &str) -> (r: bool)
    ensures
        r == unterminated(template@),
{
    let n: usize = template.unicode_len();
    let mut i: usize = n;
    while i > 0
        invariant
            i <= n,
            n == template@.len(),
            forall|j: int| i <= j < n ==> template@[j] != '{' && template@[j] != '}',
        decreases i,
    {
        let c: char = template.get_char(i - 1);
        if c == '}' {
            assert(!unterminated(template@));
            return false;
        }
        if c == '{' {
            assert(unterminated(template@));
            return true;
        }
        i = i - 1;
    }
    false
}

/// Renders `template` with `subs`. Fails with a template error where the
/// template has an unterminated marker or names a marker that `subs` lacks.
/// A template without any `{` is returned unchanged.
pub fn render(template: &str, subs: &Vec<(String, String)>) -> (r: Result<String, BuildError>)
    ensures
        match render_spec(template@, subs_view(subs@)) {
            Some(text) => r is Ok && r->Ok_0@ == text,
            None => r is Err && r->Err_0.kind == ErrorKind::Template,
        },
        !template@.contains('{') ==> r is Ok && r->Ok_0@ == template@,
{
    if has_unterminated_marker(template) {
        return Err(BuildError::new(ErrorKind::Template, String::from_str("unterminated placeholder")));
    }
    match render_template(template, subs) {
        Ok(text) => Ok(text),
        Err(e) => Err(BuildError::new(ErrorKind::Template, template_error_text(&e))),
    }
}

/// The substitutions for a table's DDL: `table` and `pk_type`.
pub fn ddl_substitutions(name: &str, pk_type: &str) -> (subs: Vec<(String, String)>)
    ensures
        subs_view(subs@) == ddl_subs(name@, pk_type@),
{
    let mut subs: Vec<(String, String)> = Vec::new();
    subs.push((String::from_str("table"), String::from_str(name)));
    subs.push((String::from_str("pk_type"), String::from_str(pk_type)));
    assert(subs_view(subs@) =~= ddl_subs(name@, pk_type@));
    subs
}

/// Renders a table's DDL from its template.
pub fn render_ddl(template: &str, name: &str, pk_type: &str) -> (r: Result<String, BuildError>)
    ensures
        match render_spec(template@, ddl_subs(name@, pk_type@)) {
            Some(text) => r is Ok && r->Ok_0@ == text,
            None => r is Err && r->Err_0.kind == ErrorKind::Template,
        },
        !template@.contains('{') ==> r is Ok && r->Ok_0@ == template@,
{
    let subs = ddl_substitutions(name, pk_type);
    render(template, &subs)
}

} // verus!
