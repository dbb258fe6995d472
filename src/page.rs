use vstd::prelude::*;
use vstd::string::*;

verus! {

/// Name of the template that renders the landing page.
pub const LANDING_TEMPLATE: &'static str = "index.html.tera";

/// Title shown on the landing page.
pub const LANDING_TITLE: &'static str = "Rust Web AI";

/// Navigation marker of the landing page.
pub const LANDING_ACTIVE: &'static str = "home";

/// Text put before a template engine's error message in the page body.
pub const TEMPLATE_ERROR_PREFIX: &'static str = "Template error: ";

#[verifier::external_type_specification]
#[verifier::external_body]
pub struct ExContext(tera::Context);


/// The string entries that a template context holds, key to value.
pub uninterp spec fn context_entries(c: tera::Context) -> Map<Seq<char>, Seq<char>>;

/// Relies on tera::Context::new: a context with no entries.
#[verifier::external_body]
fn context_new() -> (r: tera::Context)
    ensures
        context_entries(r) =~= Map::empty(),
{
    tera::Context::new()
}

/// Relies on tera::Context::insert: the key is bound to the string value,
/// replacing any earlier binding (a string always serialises, so it does not
/// panic).
#[verifier::external_body]
fn context_insert_str(ctx: &mut tera::Context, key: &str, val: &str)
    ensures
        context_entries(*final(ctx)) == context_entries(*old(ctx)).insert(key@, val@),
{
    ctx.insert(key, val)
}

/// The entries of the landing page's context.
pub open spec fn landing_entries() -> Map<Seq<char>, Seq<char>> {
    Map::<Seq<char>, Seq<char>>::empty().insert("title"@, LANDING_TITLE@).insert(
        "active"@,
        LANDING_ACTIVE@,
    )
}

/// The context of the landing page: its title and its navigation marker.
pub fn landing_context() -> (c: tera::Context)
    ensures
        context_entries(c) == landing_entries(),
{
    let mut c = context_new();
    context_insert_str(&mut c, "title", LANDING_TITLE);
    context_insert_str(&mut c, "active", LANDING_ACTIVE);
    c
}

/// The body of the landing page, given what rendering it gave: the page
/// itself, or the error message behind [`TEMPLATE_ERROR_PREFIX`].
pub open spec fn landing_body_spec(rendered: Result<Seq<char>, Seq<char>>) -> Seq<char> {
    match rendered {
        Ok(page) => page,
        Err(msg) => TEMPLATE_ERROR_PREFIX@ + msg,
    }
}

/// The view of a rendering outcome: the page or the error message, as
/// character sequences.
pub open spec fn rendered_view(r: Result<String, String>) -> Result<Seq<char>, Seq<char>> {
    match r {
        Ok(p) => Ok(p@),
        Err(m) => Err(m@),
    }
}

/// The body of the landing page, given what rendering it gave (the page, or
/// the engine's error message).
pub fn landing_body(rendered: Result<String, String>) -> (body: String)
    ensures
        body@ == landing_body_spec(rendered_view(rendered)),
{
    match rendered {
        Ok(page) => page,
        Err(msg) => String::from_str(TEMPLATE_ERROR_PREFIX).concat(msg.as_str()),
    }
}

/// Whether `t` occurs in `s` as a contiguous run of characters.
pub open spec fn contains_text(s: Seq<char>, t: Seq<char>) -> bool {
    exists|i: int| 0 <= i && i + t.len() <= s.len() && #[trigger] s.subrange(i, i + t.len()) == t
}

/// A successful rendering is served unchanged: the body is the page itself,
/// so whatever text the page holds (the landing title among it) the body
/// holds too.
pub proof fn lemma_rendered_page_served(page: Seq<char>, text: Seq<char>)
    requires
        contains_text(page, text),
    ensures
        landing_body_spec(Ok(page)) == page,
        contains_text(landing_body_spec(Ok(page)), text),
{
}

} // verus!
