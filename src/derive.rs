//! The generators: each turns a type declaration into the source of one impl.
use vstd::prelude::*;
use crate::decl::{
    GenericParam,
    TypeDecl,
    DeclView,
    ParamView,
    all_with_bound,
    serialize_bound,
    deserialize_bound,
    with_bound,
    params_view,
    serialize_in_generics,
    deserialize_in_generics,
};
use crate::render::{
    angled,
    arg_texts,
    decl_texts,
    join,
    bounds_text,
    param_decl,
    append_param_decls,
    append_param_args,
};

verus! {

/// Which JSON encoder a formatting impl goes through.
#[derive(Clone, Copy, PartialEq, Eq, Debug)]
pub enum Style {
    /// One line, no insignificant whitespace.
    Compact,
    /// Two-space indentation, `": "` between key and value.
    Pretty,
}

pub open spec fn encoder_path(style: Style) -> Seq<char> {
    match style {
        Style::Compact => "serde_json::to_string"@,
        Style::Pretty => "serde_json::to_string_pretty"@,
    }
}

pub open spec fn display_path() -> Seq<char> {
    "std::fmt::Display"@
}

pub open spec fn debug_path() -> Seq<char> {
    "std::fmt::Debug"@
}

pub open spec fn from_str_path() -> Seq<char> {
    "std::str::FromStr"@
}

/// `impl<params with bound> Trait for Name<args> {` and a line break.
pub open spec fn impl_header(d: DeclView, bound: Seq<char>, trait_path: Seq<char>) -> Seq<char> {
    "impl"@ + angled(decl_texts(all_with_bound(d.params, bound))) + " "@ + trait_path + " for "@
        + d.name + angled(arg_texts(d.params)) + " {\n"@
}

/// The `fmt` method of a formatting impl and the impl's closing brace: the
/// value is encoded with the style's encoder and the text is written as it is.
pub open spec fn fmt_body(style: Style) -> Seq<char> {
    "    fn fmt(&self, f: &mut std::fmt::Formatter<'_>) -> std::fmt::Result {\n"@
        + "        let s = display_json::outcome::format_outcome("@ + encoder_path(style)
        + "(self))?;\n"@ + "        f.write_str(&s)\n    }\n}\n"@
}

/// The body of a `FromStr` impl: the decoder's error is handed on as it is.
pub open spec fn from_str_body() -> Seq<char> {
    "    type Err = serde_json::Error;\n\n"@
        + "    fn from_str(s: &str) -> Result<Self, Self::Err> {\n"@
        + "        serde_json::from_str(s)\n    }\n}\n"@
}

/// The source of a formatting impl of `trait_path` for `d`.
pub open spec fn fmt_impl(d: DeclView, trait_path: Seq<char>, style: Style) -> Seq<char> {
    impl_header(d, serialize_bound(), trait_path) + fmt_body(style)
}

/// The source of the `FromStr` impl for `d`.
pub open spec fn from_str_impl(d: DeclView) -> Seq<char> {
    impl_header(d, deserialize_bound(), from_str_path()) + from_str_body()
}

/// Appends `impl<bounded> Trait for Name<args> {` and a line break.
fn append_header(
    out: &mut String,
    input: &TypeDecl,
    bounded: &Vec<GenericParam>,
    trait_path: &str,
)
    ensures
        final(out)@ == old(out)@ + "impl"@ + angled(decl_texts(params_view(bounded@)))
            + " "@ + trait_path@ + " for "@ + input@.name + angled(arg_texts(input@.params))
            + " {\n"@,
{
    out.append("impl");
    append_param_decls(out, bounded);
    out.append(" ");
    out.append(trait_path);
    out.append(" for ");
    out.append(input.name.as_str());
    append_param_args(out, &input.params);
    out.append(" {\n");
}

fn fmt_impl_text(input: &TypeDecl, trait_path: &str, style: Style) -> (r: String)
    ensures
        r@ == fmt_impl(input@, trait_path@, style),
{
    let bounded = serialize_in_generics(&input.params);
    let mut out = String::new();
    append_header(&mut out, input, &bounded, trait_path);
    out.append("    fn fmt(&self, f: &mut std::fmt::Formatter<'_>) -> std::fmt::Result {\n");
    out.append("        let s = display_json::outcome::format_outcome(");
    match style {
        Style::Compact => out.append("serde_json::to_string"),
        Style::Pretty => out.append("serde_json::to_string_pretty"),
    }
    out.append("(self))?;\n");
    out.append("        f.write_str(&s)\n    }\n}\n");
    assert(out@ =~= fmt_impl(input@, trait_path@, style));
    out
}

/// The source of a `Display` impl that writes the value's compact JSON.
pub fn derive_display_as_json(input: &TypeDecl) -> (r: String)
    ensures
        r@ == fmt_impl(input@, display_path(), Style::Compact),
{
    fmt_impl_text(input, "std::fmt::Display", Style::Compact)
}

/// The source of a `Display` impl that writes the value's pretty JSON.
pub fn derive_display_as_json_pretty(input: &TypeDecl) -> (r: String)
    ensures
        r@ == fmt_impl(input@, display_path(), Style::Pretty),
{
    fmt_impl_text(input, "std::fmt::Display", Style::Pretty)
}

/// The source of a `Debug` impl that writes the value's compact JSON.
pub fn derive_debug_as_json(input: &TypeDecl) -> (r: String)
    ensures
        r@ == fmt_impl(input@, debug_path(), Style::Compact),
{
    fmt_impl_text(input, "std::fmt::Debug", Style::Compact)
}

/// The source of a `Debug` impl that writes the value's pretty JSON.
pub fn derive_debug_as_json_pretty(input: &TypeDecl) -> (r: String)
    ensures
        r@ == fmt_impl(input@, debug_path(), Style::Pretty),
{
    fmt_impl_text(input, "std::fmt::Debug", Style::Pretty)
}

/// The source of a `FromStr` impl that decodes the text as JSON.
pub fn derive_from_str_as_json(input: &TypeDecl) -> (r: String)
    ensures
        r@ == from_str_impl(input@),
{
    let bounded = deserialize_in_generics(&input.params);
    let mut out = String::new();
    append_header(&mut out, input, &bounded, "std::str::FromStr");
    out.append("    type Err = serde_json::Error;\n\n");
    out.append("    fn from_str(s: &str) -> Result<Self, Self::Err> {\n");
    out.append("        serde_json::from_str(s)\n    }\n}\n");
    assert(out@ =~= from_str_impl(input@));
    out
}

/// A `Debug` impl and a `Display` impl made with one style differ only in
/// the trait they name: after the header, both hold the same `fmt`, which
/// goes through that style's encoder.
pub proof fn lemma_debug_same_as_display(d: DeclView, style: Style)
    ensures
        fmt_impl(d, debug_path(), style).skip(
            impl_header(d, serialize_bound(), debug_path()).len() as int,
        ) == fmt_body(style),
        fmt_impl(d, display_path(), style).skip(
            impl_header(d, serialize_bound(), display_path()).len() as int,
        ) == fmt_body(style),
{
    assert(fmt_impl(d, debug_path(), style).skip(
        impl_header(d, serialize_bound(), debug_path()).len() as int,
    ) =~= fmt_body(style));
    assert(fmt_impl(d, display_path(), style).skip(
        impl_header(d, serialize_bound(), display_path()).len() as int,
    ) =~= fmt_body(style));
}

/// In an impl's parameter list each type parameter is declared with the
/// required bound after its own (`T: serde::Serialize`, or
/// `T: Clone + serde::Serialize`); lifetime and const parameters are
/// declared as they were.
pub proof fn lemma_param_declared_with_bound(p: ParamView, bound: Seq<char>)
    ensures
        p is Type && p->Type_bounds.len() == 0 ==> param_decl(with_bound(p, bound))
            == p->Type_name + ": "@ + bound,
        p is Type && p->Type_bounds.len() > 0 ==> param_decl(with_bound(p, bound))
            == param_decl(p) + " + "@ + bound,
        !(p is Type) ==> param_decl(with_bound(p, bound)) == param_decl(p),
{
    if let ParamView::Type { name, bounds } = p {
        let b2 = bounds.push(bound);
        assert(b2.drop_last() =~= bounds);
        if bounds.len() == 0 {
            assert(join(b2, " + "@) == bound);
        } else {
            assert(join(b2, " + "@) == join(bounds, " + "@) + " + "@ + bound);
        }
        assert(param_decl(with_bound(p, bound)) =~= name + bounds_text(b2));
    }
}

/// The bounds go to the impl's parameter list only: the type's own argument
/// list names the parameters as the declaration does.
pub proof fn lemma_args_keep_names(ps: Seq<ParamView>, bound: Seq<char>)
    ensures
        arg_texts(all_with_bound(ps, bound)) == arg_texts(ps),
        decl_texts(all_with_bound(ps, bound)).len() == ps.len(),
{
    assert(arg_texts(all_with_bound(ps, bound)) =~= arg_texts(ps)) by {
        assert forall|i: int| 0 <= i < ps.len() implies #[trigger] arg_texts(all_with_bound(ps, bound))[i]
            == arg_texts(ps)[i] by {
            assert(all_with_bound(ps, bound)[i] == with_bound(ps[i], bound));
        }
    }
}

} // verus!
