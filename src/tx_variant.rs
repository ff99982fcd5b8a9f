use vstd::prelude::*;

verus! {

/// One segment of a type path: its identifier, and whether generic
/// arguments follow it.
#[derive(Debug, PartialEq, Eq)]
pub struct PathSegment {
    pub ident: String,
    pub has_arguments: bool,
}

pub struct SegmentView {
    pub ident: Seq<char>,
    pub has_arguments: bool,
}

impl View for PathSegment {
    type V = SegmentView;

    open spec fn view(&self) -> SegmentView {
        SegmentView { ident: self.ident@, has_arguments: self.has_arguments }
    }
}

/// The type of a function parameter.
#[derive(Debug, PartialEq, Eq)]
pub enum ParamType {
    /// A reference to a path type: `&T` or `&mut T`.
    RefPath { mutable: bool, segments: Vec<PathSegment> },
    /// Any other type, or a receiver, kept as written.
    Other(String),
}

pub enum ParamTypeView {
    RefPath { mutable: bool, segments: Seq<SegmentView> },
    Other(Seq<char>),
}

impl View for ParamType {
    type V = ParamTypeView;

    open spec fn view(&self) -> ParamTypeView {
        match self {
            ParamType::RefPath { mutable, segments } => ParamTypeView::RefPath {
                mutable: *mutable,
                segments: segments@.map_values(|s: PathSegment| s@),
            },
            ParamType::Other(t) => ParamTypeView::Other(t@),
        }
    }
}

/// A function parameter: its pattern and its type.
#[derive(Debug, PartialEq, Eq)]
pub struct Param {
    pub pattern: String,
    pub ty: ParamType,
}

pub struct ParamView {
    pub pattern: Seq<char>,
    pub ty: ParamTypeView,
}

impl View for Param {
    type V = ParamView;

    open spec fn view(&self) -> ParamView {
        ParamView { pattern: self.pattern@, ty: self.ty@ }
    }
}

/// The signature of a database function: its name and its parameters.
#[derive(Debug, PartialEq, Eq)]
pub struct FnSignature {
    pub name: String,
    pub params: Vec<Param>,
}

pub struct SignatureView {
    pub name: Seq<char>,
    pub params: Seq<ParamView>,
}

impl View for FnSignature {
    type V = SignatureView;

    open spec fn view(&self) -> SignatureView {
        SignatureView { name: self.name@, params: self.params@.map_values(|p: Param| p@) }
    }
}

/// Whether a path names the database client: its last segment is `Client`
/// without arguments, or the path is exactly `edgedb_tokio::Client`.
pub open spec fn is_client_path(segs: Seq<SegmentView>) -> bool {
    segs.len() > 0 && ((segs.last().ident == "Client"@ && !segs.last().has_arguments) || (segs.len()
        == 2 && segs[0].ident == "edgedb_tokio"@ && segs[1].ident == "Client"@))
}

/// The path `edgedb_tokio::Transaction`.
pub open spec fn transaction_path() -> Seq<SegmentView> {
    seq![
        SegmentView { ident: "edgedb_tokio"@, has_arguments: false },
        SegmentView { ident: "Transaction"@, has_arguments: false },
    ]
}

/// A parameter of the transaction variant: a reference to the client becomes
/// `&mut edgedb_tokio::Transaction`; every other parameter is kept.
pub open spec fn tx_param(p: ParamView) -> ParamView {
    match p.ty {
        ParamTypeView::RefPath { mutable, segments } => if is_client_path(segments) {
            ParamView {
                pattern: p.pattern,
                ty: ParamTypeView::RefPath { mutable: true, segments: transaction_path() },
            }
        } else {
            p
        },
        ParamTypeView::Other(_) => p,
    }
}

/// The signature of the transaction variant of `s`: named with `_tx`
/// appended, each parameter rewritten by [`tx_param`].
pub open spec fn tx_signature(s: SignatureView) -> SignatureView {
    SignatureView { name: s.name + "_tx"@, params: s.params.map_values(|p: ParamView| tx_param(p)) }
}

fn is_client(segs: &Vec<PathSegment>) -> (r: bool)
    ensures
        r == is_client_path(segs@.map_values(|s: PathSegment| s@)),
{
    let ghost sv = segs@.map_values(|s: PathSegment| s@);
    let n = segs.len();
    if n == 0 {
        return false;
    }
    let client = String::from_str("Client");
    let last = &segs[n - 1];
    assert(sv.last() == last@);
    if last.ident == client && !last.has_arguments {
        return true;
    }
    n == 2 && segs[0].ident == String::from_str("edgedb_tokio") && segs[1].ident == client
}

fn copy_segments(segs: &Vec<PathSegment>) -> (r: Vec<PathSegment>)
    ensures
        r@.map_values(|s: PathSegment| s@) == segs@.map_values(|s: PathSegment| s@),
{
    let mut out: Vec<PathSegment> = Vec::new();
    let n = segs.len();
    let mut i: usize = 0;
    while i < n
        invariant
            n == segs@.len(),
            i <= n,
            out@.len() == i,
            forall|k: int| 0 <= k < i ==> (#[trigger] out@[k])@ == segs@[k]@,
        decreases n - i,
    {
        out.push(PathSegment { ident: segs[i].ident.clone(), has_arguments: segs[i].has_arguments });
        i = i + 1;
    }
    assert(out@.map_values(|s: PathSegment| s@) =~= segs@.map_values(|s: PathSegment| s@));
    out
}

fn rewrite_param(p: &Param) -> (r: Param)
    ensures
        r@ == tx_param(p@),
{
    match &p.ty {
        ParamType::RefPath { mutable, segments } => {
            if is_client(segments) {
                let segs = vec![
                    PathSegment { ident: String::from_str("edgedb_tokio"), has_arguments: false },
                    PathSegment { ident: String::from_str("Transaction"), has_arguments: false },
                ];
                let r = Param {
                    pattern: p.pattern.clone(),
                    ty: ParamType::RefPath { mutable: true, segments: segs },
                };
                assert(segs@.map_values(|s: PathSegment| s@) =~= transaction_path());
                r
            } else {
                Param {
                    pattern: p.pattern.clone(),
                    ty: ParamType::RefPath { mutable: *mutable, segments: copy_segments(segments) },
                }
            }
        },
        ParamType::Other(t) => Param { pattern: p.pattern.clone(), ty: ParamType::Other(t.clone()) },
    }
}

/// The transaction variant of a database function's signature: the name
/// gets `_tx` appended, and each parameter that borrows the client
/// (`&Client`, `&edgedb_tokio::Client`) takes `&mut edgedb_tokio::Transaction`
/// instead. The function itself stays beside its variant, unchanged.
pub fn derive_tx_variant(f: &FnSignature) -> (r: FnSignature)
    ensures
        r@ == tx_signature(f@),
{
    let mut params: Vec<Param> = Vec::new();
    let n = f.params.len();
    let mut i: usize = 0;
    while i < n
        invariant
            n == f.params@.len(),
            i <= n,
            params@.len() == i,
            forall|k: int| 0 <= k < i ==> (#[trigger] params@[k])@ == tx_param(f.params@[k]@),
        decreases n - i,
    {
        params.push(rewrite_param(&f.params[i]));
        i = i + 1;
    }
    let mut name = f.name.clone();
    name.append("_tx");
    let r = FnSignature { name, params };
    assert(r@.params =~= tx_signature(f@).params);
    r
}

} // verus!
