//! The model of a type declaration that the generators read: its name and
//! its ordered list of generic parameters.
use vstd::prelude::*;

verus! {

/// One generic parameter of a type declaration.
pub enum GenericParam {
    /// A type parameter `T: B1 + B2`, with the paths of its bounds.
    Type { name: String, bounds: Vec<String> },
    /// A lifetime parameter `'a: 'b`, with the lifetimes that bound it.
    Lifetime { name: String, bounds: Vec<String> },
    /// A const parameter `const N: usize`.
    Const { name: String, ty: String },
}

/// What a generic parameter is, as text.
pub enum ParamView {
    Type { name: Seq<char>, bounds: Seq<Seq<char>> },
    Lifetime { name: Seq<char>, bounds: Seq<Seq<char>> },
    Const { name: Seq<char>, ty: Seq<char> },
}

pub open spec fn strings_view(v: Seq<String>) -> Seq<Seq<char>> {
    v.map_values(|s: String| s@)
}

impl View for GenericParam {
    type V = ParamView;

    open spec fn view(&self) -> ParamView {
        match self {
            GenericParam::Type { name, bounds } => ParamView::Type {
                name: name@,
                bounds: strings_view(bounds@),
            },
            GenericParam::Lifetime { name, bounds } => ParamView::Lifetime {
                name: name@,
                bounds: strings_view(bounds@),
            },
            GenericParam::Const { name, ty } => ParamView::Const { name: name@, ty: ty@ },
        }
    }
}

pub open spec fn params_view(ps: Seq<GenericParam>) -> Seq<ParamView> {
    ps.map_values(|p: GenericParam| p@)
}

/// A type declaration (struct, enum or tuple struct) as the generators see it.
pub struct TypeDecl {
    pub name: String,
    pub params: Vec<GenericParam>,
}

pub struct DeclView {
    pub name: Seq<char>,
    pub params: Seq<ParamView>,
}

impl View for TypeDecl {
    type V = DeclView;

    open spec fn view(&self) -> DeclView {
        DeclView { name: self.name@, params: params_view(self.params@) }
    }
}

/// The parameter with `bound` appended to its bounds if it is a type
/// parameter; any other parameter is left as it is.
pub open spec fn with_bound(p: ParamView, bound: Seq<char>) -> ParamView {
    match p {
        ParamView::Type { name, bounds } => ParamView::Type { name, bounds: bounds.push(bound) },
        _ => p,
    }
}

/// Every parameter of `ps` with `bound` added as `with_bound` says.
pub open spec fn all_with_bound(ps: Seq<ParamView>, bound: Seq<char>) -> Seq<ParamView> {
    ps.map_values(|p: ParamView| with_bound(p, bound))
}

pub open spec fn serialize_bound() -> Seq<char> {
    "serde::Serialize"@
}

pub open spec fn deserialize_bound() -> Seq<char> {
    "serde::de::DeserializeOwned"@
}

fn copy_strings(v: &Vec<String>) -> (r: Vec<String>)
    ensures
        strings_view(r@) == strings_view(v@),
{
    let mut r: Vec<String> = Vec::new();
    let mut i: usize = 0;
    while i < v.len()
        invariant
            i <= v.len(),
            r@.len() == i,
            forall|k: int| 0 <= k < i ==> #[trigger] r@[k]@ == v@[k]@,
        decreases v.len() - i,
    {
        r.push(v[i].clone());
        i += 1;
    }
    assert(strings_view(r@) =~= strings_view(v@));
    r
}

fn param_with_bound(p: &GenericParam, bound: &str) -> (r: GenericParam)
    ensures
        r@ == with_bound(p@, bound@),
{
    match p {
        GenericParam::Type { name, bounds } => {
            let mut bs = copy_strings(bounds);
            bs.push(bound.to_owned());
            assert(strings_view(bs@) =~= strings_view(bounds@).push(bound@));
            GenericParam::Type { name: name.clone(), bounds: bs }
        },
        GenericParam::Lifetime { name, bounds } => {
            GenericParam::Lifetime { name: name.clone(), bounds: copy_strings(bounds) }
        },
        GenericParam::Const { name, ty } => GenericParam::Const {
            name: name.clone(),
            ty: ty.clone(),
        },
    }
}

fn params_with_bound(g: &Vec<GenericParam>, bound: &str) -> (r: Vec<GenericParam>)
    ensures
        params_view(r@) == all_with_bound(params_view(g@), bound@),
{
    let mut r: Vec<GenericParam> = Vec::new();
    let mut i: usize = 0;
    while i < g.len()
        invariant
            i <= g.len(),
            r@.len() == i,
            forall|k: int| 0 <= k < i ==> #[trigger] r@[k]@ == with_bound(g@[k]@, bound@),
        decreases g.len() - i,
    {
        r.push(param_with_bound(&g[i], bound));
        i += 1;
    }
    assert(params_view(r@) =~= all_with_bound(params_view(g@), bound@));
    r
}

/// The parameters of a declaration as a `Display`/`Debug` impl needs them:
/// each type parameter also bounded by `serde::Serialize`.
pub fn serialize_in_generics(g: &Vec<GenericParam>) -> (r: Vec<GenericParam>)
    ensures
        params_view(r@) == all_with_bound(params_view(g@), serialize_bound()),
{
    params_with_bound(g, "serde::Serialize")
}

/// The parameters of a declaration as a `FromStr` impl needs them: each
/// type parameter also bounded by `serde::de::DeserializeOwned`.
pub fn deserialize_in_generics(g: &Vec<GenericParam>) -> (r: Vec<GenericParam>)
    ensures
        params_view(r@) == all_with_bound(params_view(g@), deserialize_bound()),
{
    params_with_bound(g, "serde::de::DeserializeOwned")
}

} // verus!
