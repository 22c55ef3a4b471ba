//! Rendering of generic parameter lists as source text.
use vstd::prelude::*;
use crate::decl::{GenericParam, ParamView, params_view, strings_view};

verus! {

/// `parts` with `sep` between each two neighbours.
pub open spec fn join(parts: Seq<Seq<char>>, sep: Seq<char>) -> Seq<char>
    decreases parts.len(),
{
    if parts.len() == 0 {
        Seq::empty()
    } else if parts.len() == 1 {
        parts[0]
    } else {
        join(parts.drop_last(), sep) + sep + parts.last()
    }
}

/// `: B1 + B2` for a non-empty list of bounds, nothing for an empty one.
pub open spec fn bounds_text(bounds: Seq<Seq<char>>) -> Seq<char> {
    if bounds.len() == 0 {
        Seq::empty()
    } else {
        ": "@ + join(bounds, " + "@)
    }
}

/// A parameter as it is declared in `impl<...>`.
pub open spec fn param_decl(p: ParamView) -> Seq<char> {
    match p {
        ParamView::Type { name, bounds } => name + bounds_text(bounds),
        ParamView::Lifetime { name, bounds } => name + bounds_text(bounds),
        ParamView::Const { name, ty } => "const "@ + name + ": "@ + ty,
    }
}

/// A parameter as it is passed in the type's argument list.
pub open spec fn param_arg(p: ParamView) -> Seq<char> {
    match p {
        ParamView::Type { name, .. } => name,
        ParamView::Lifetime { name, .. } => name,
        ParamView::Const { name, .. } => name,
    }
}

pub open spec fn decl_texts(ps: Seq<ParamView>) -> Seq<Seq<char>> {
    ps.map_values(|p: ParamView| param_decl(p))
}

pub open spec fn arg_texts(ps: Seq<ParamView>) -> Seq<Seq<char>> {
    ps.map_values(|p: ParamView| param_arg(p))
}

/// `<P1, P2>` for a non-empty list, nothing for an empty one.
pub open spec fn angled(parts: Seq<Seq<char>>) -> Seq<char> {
    if parts.len() == 0 {
        Seq::empty()
    } else {
        "<"@ + join(parts, ", "@) + ">"@
    }
}

proof fn lemma_join_step(parts: Seq<Seq<char>>, sep: Seq<char>, i: int)
    requires
        0 <= i < parts.len(),
    ensures
        join(parts.take(i + 1), sep) == if i == 0 {
            parts[0]
        } else {
            join(parts.take(i), sep) + sep + parts[i]
        },
{
    if i > 0 {
        assert(parts.take(i + 1).drop_last() =~= parts.take(i));
    }
}

/// Appends the strings of `v` with `sep` between them.
fn append_joined(out: &mut String, v: &Vec<String>, sep: &str)
    ensures
        final(out)@ == old(out)@ + join(strings_view(v@), sep@),
{
    let ghost start = out@;
    let ghost parts = strings_view(v@);
    let mut i: usize = 0;
    while i < v.len()
        invariant
            i <= v.len(),
            parts == strings_view(v@),
            out@ == start + join(parts.take(i as int), sep@),
        decreases v.len() - i,
    {
        proof {
            lemma_join_step(parts, sep@, i as int);
        }
        if i > 0 {
            out.append(sep);
        }
        out.append(v[i].as_str());
        i += 1;
        proof {
            if i == 1 {
                assert(start + join(parts.take(0), sep@) =~= start);
            }
            assert(out@ =~= start + join(parts.take(i as int), sep@));
        }
    }
    assert(parts.take(v.len() as int) =~= parts);
}

fn append_bounds(out: &mut String, bounds: &Vec<String>)
    ensures
        final(out)@ == old(out)@ + bounds_text(strings_view(bounds@)),
{
    if bounds.len() == 0 {
        assert(out@ =~= out@ + bounds_text(strings_view(bounds@)));
    } else {
        let ghost start = out@;
        out.append(": ");
        append_joined(out, bounds, " + ");
        assert(out@ =~= start + bounds_text(strings_view(bounds@)));
    }
}

fn append_param_decl(out: &mut String, p: &GenericParam)
    ensures
        final(out)@ == old(out)@ + param_decl(p@),
{
    let ghost start = out@;
    match p {
        GenericParam::Type { name, bounds } => {
            out.append(name.as_str());
            append_bounds(out, bounds);
        },
        GenericParam::Lifetime { name, bounds } => {
            out.append(name.as_str());
            append_bounds(out, bounds);
        },
        GenericParam::Const { name, ty } => {
            out.append("const ");
            out.append(name.as_str());
            out.append(": ");
            out.append(ty.as_str());
        },
    }
    assert(out@ =~= start + param_decl(p@));
}

fn append_param_arg(out: &mut String, p: &GenericParam)
    ensures
        final(out)@ == old(out)@ + param_arg(p@),
{
    match p {
        GenericParam::Type { name, .. } => out.append(name.as_str()),
        GenericParam::Lifetime { name, .. } => out.append(name.as_str()),
        GenericParam::Const { name, .. } => out.append(name.as_str()),
    }
}

/// Appends `<P1, P2, ...>` with each parameter as it is declared, or
/// nothing when there is no parameter.
pub fn append_param_decls(out: &mut String, ps: &Vec<GenericParam>)
    ensures
        final(out)@ == old(out)@ + angled(decl_texts(params_view(ps@))),
{
    append_params(out, ps, true)
}

/// Appends `<P1, P2, ...>` with each parameter's name alone, or nothing
/// when there is no parameter.
pub fn append_param_args(out: &mut String, ps: &Vec<GenericParam>)
    ensures
        final(out)@ == old(out)@ + angled(arg_texts(params_view(ps@))),
{
    append_params(out, ps, false)
}

fn append_params(out: &mut String, ps: &Vec<GenericParam>, decls: bool)
    ensures
        final(out)@ == old(out)@ + angled(
            if decls {
                decl_texts(params_view(ps@))
            } else {
                arg_texts(params_view(ps@))
            },
        ),
{
    let ghost start = out@;
    let ghost parts = if decls {
        decl_texts(params_view(ps@))
    } else {
        arg_texts(params_view(ps@))
    };
    if ps.len() == 0 {
        assert(out@ =~= start + angled(parts));
        return;
    }
    out.append("<");
    let ghost open = out@;
    let mut i: usize = 0;
    while i < ps.len()
        invariant
            i <= ps.len(),
            parts.len() == ps.len(),
            forall|k: int|
                0 <= k < ps.len() ==> #[trigger] parts[k] == if decls {
                    param_decl(ps@[k]@)
                } else {
                    param_arg(ps@[k]@)
                },
            out@ == open + join(parts.take(i as int), ", "@),
        decreases ps.len() - i,
    {
        proof {
            lemma_join_step(parts, ", "@, i as int);
        }
        if i > 0 {
            out.append(", ");
        }
        if decls {
            append_param_decl(out, &ps[i]);
        } else {
            append_param_arg(out, &ps[i]);
        }
        i += 1;
        proof {
            if i == 1 {
                assert(open + join(parts.take(0), ", "@) =~= open);
            }
            assert(out@ =~= open + join(parts.take(i as int), ", "@));
        }
    }
    assert(parts.take(ps.len() as int) =~= parts);
    out.append(">");
    assert(out@ =~= start + angled(parts));
}

} // verus!
