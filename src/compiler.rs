use vstd::prelude::*;

use crate::model::{
    text_result, DefinitionError, ErrorView, FieldSpec, FieldView, KindView, ProjectionKind,
    RecordType, RecordView,
};

verus! {

/// The record types known to the shape compiler, looked up by name.
pub struct Registry {
    pub records: Vec<RecordType>,
}

impl View for Registry {
    type V = Seq<RecordView>;

    open spec fn view(&self) -> Seq<RecordView> {
        self.records@.map_values(|r: RecordType| r@)
    }
}

/// The first index at or after `i` of a record type named `name`.
pub open spec fn find_from(reg: Seq<RecordView>, name: Seq<char>, i: int) -> Option<int>
    decreases reg.len() - i,
{
    if i < 0 || i >= reg.len() {
        None
    } else if reg[i].name == name {
        Some(i)
    } else {
        find_from(reg, name, i + 1)
    }
}

/// The index of the first record type named `name`.
pub open spec fn find_record(reg: Seq<RecordView>, name: Seq<char>) -> Option<int> {
    find_from(reg, name, 0)
}

/// Whether the field's projection is composed with a nested record's shape.
pub open spec fn composes(f: FieldView) -> bool {
    f.nested is Some && !(f.kind is Expression)
}

/// The projection text of one field, with `inner` the shape of its nested
/// record where it has one.
pub open spec fn fragment(f: FieldView, inner: Seq<char>) -> Seq<char> {
    match f.kind {
        KindView::PlainName => if composes(f) {
            f.name + " := ."@ + f.name + " { "@ + inner + " }, "@
        } else {
            f.name + ", "@
        },
        KindView::Alias(a) => if composes(f) {
            f.name + " := ."@ + a + " { "@ + inner + " }, "@
        } else {
            f.name + " := ."@ + a + ", "@
        },
        KindView::Expression(e) => f.name + " := "@ + e + ", "@,
    }
}

/// The shape of the record type `name`, resolving nested records at most
/// `depth` levels deep.
pub open spec fn record_shape(reg: Seq<RecordView>, name: Seq<char>, depth: nat) -> Result<Seq<char>, ErrorView>
    decreases depth, 0nat,
{
    match find_record(reg, name) {
        None => Err(ErrorView::UnknownRecord { name }),
        Some(i) => if depth == 0 {
            Err(ErrorView::NestingCycle { name })
        } else {
            fields_shape(reg, reg[i].fields, reg[i].fields.len(), (depth - 1) as nat)
        },
    }
}

/// The concatenated projection text of the first `n` fields, in order.
pub open spec fn fields_shape(reg: Seq<RecordView>, fields: Seq<FieldView>, n: nat, depth: nat) -> Result<Seq<char>, ErrorView>
    decreases depth, n,
{
    if n == 0 {
        Ok(Seq::empty())
    } else {
        match fields_shape(reg, fields, (n - 1) as nat, depth) {
            Err(e) => Err(e),
            Ok(prefix) => {
                let f = fields[n - 1];
                if composes(f) {
                    match record_shape(reg, f.nested.unwrap(), depth) {
                        Err(e) => Err(e),
                        Ok(inner) => Ok(prefix + fragment(f, inner)),
                    }
                } else {
                    Ok(prefix + fragment(f, Seq::empty()))
                }
            },
        }
    }
}

/// The compiled shape of the record type `name` in the registry `reg`.
///
/// Nesting is followed at most as many levels deep as there are record
/// types; a deeper chain must revisit a record type, and is reported as a
/// cycle.
pub open spec fn shape_of(reg: Seq<RecordView>, name: Seq<char>) -> Result<Seq<char>, ErrorView> {
    record_shape(reg, name, reg.len())
}

proof fn lemma_fields_error_kept(reg: Seq<RecordView>, fields: Seq<FieldView>, k: nat, n: nat, depth: nat)
    requires
        k <= n,
        fields_shape(reg, fields, k, depth) is Err,
    ensures
        fields_shape(reg, fields, n, depth) == fields_shape(reg, fields, k, depth),
    decreases n - k,
{
    if k < n {
        lemma_fields_error_kept(reg, fields, k, (n - 1) as nat, depth);
    }
}

/// `name, ` for each of the first `n` fields, in order.
pub open spec fn plain_list(fields: Seq<FieldView>, n: nat) -> Seq<char>
    decreases n,
{
    if n == 0 {
        Seq::empty()
    } else {
        plain_list(fields, (n - 1) as nat) + fields[n - 1].name + ", "@
    }
}

/// Whether every field is projected under its own name, without nesting.
pub open spec fn all_plain(fields: Seq<FieldView>) -> bool {
    forall|k: int| 0 <= k < fields.len() ==> (#[trigger] fields[k]).kind is PlainName && fields[k].nested is None
}

proof fn lemma_find_from_in_range(reg: Seq<RecordView>, name: Seq<char>, i: int)
    requires
        find_from(reg, name, i) is Some,
    ensures
        0 <= find_from(reg, name, i)->Some_0 < reg.len(),
        reg[find_from(reg, name, i)->Some_0].name == name,
    decreases reg.len() - i,
{
    if 0 <= i < reg.len() && reg[i].name != name {
        lemma_find_from_in_range(reg, name, i + 1);
    }
}

proof fn lemma_plain_fields(reg: Seq<RecordView>, fields: Seq<FieldView>, n: nat, depth: nat)
    requires
        all_plain(fields),
        n <= fields.len(),
    ensures
        fields_shape(reg, fields, n, depth) == Ok::<Seq<char>, ErrorView>(plain_list(fields, n)),
    decreases n,
{
    if n > 0 {
        lemma_plain_fields(reg, fields, (n - 1) as nat, depth);
        let f = fields[n - 1];
        assert(f.kind is PlainName && f.nested is None);
        assert(plain_list(fields, (n - 1) as nat) + fragment(f, Seq::empty()) =~= plain_list(fields, n));
    }
}

/// A record type whose fields are all plain compiles to `name, ` for each of
/// its fields, in declaration order.
pub proof fn plain_fields_shape(reg: Seq<RecordView>, name: Seq<char>)
    requires
        find_record(reg, name) is Some,
        all_plain(reg[find_record(reg, name)->Some_0].fields),
    ensures
        ({
            let fields = reg[find_record(reg, name)->Some_0].fields;
            shape_of(reg, name) == Ok::<Seq<char>, ErrorView>(plain_list(fields, fields.len()))
        }),
{
    lemma_find_from_in_range(reg, name, 0);
    let fields = reg[find_record(reg, name)->Some_0].fields;
    lemma_plain_fields(reg, fields, fields.len(), (reg.len() - 1) as nat);
}

/// Compiling a record type twice over the same model gives the same text.
pub proof fn shape_deterministic(a: Seq<RecordView>, b: Seq<RecordView>, name: Seq<char>)
    requires
        a == b,
    ensures
        shape_of(a, name) == shape_of(b, name),
{
}

/// Appends the projection text of `f` to `out`, with `inner` the shape of
/// its nested record (unused where the field is not composed).
pub fn projection_text(f: &FieldSpec, inner: &str, out: &mut String)
    ensures
        final(out)@ == old(out)@ + fragment(f@, inner@),
{
    match &f.kind {
        ProjectionKind::PlainName => {
            if f.nested.is_some() {
                out.append(f.name.as_str());
                out.append(" := .");
                out.append(f.name.as_str());
                out.append(" { ");
                out.append(inner);
                out.append(" }, ");
            } else {
                out.append(f.name.as_str());
                out.append(", ");
            }
        },
        ProjectionKind::Alias(a) => {
            if f.nested.is_some() {
                out.append(f.name.as_str());
                out.append(" := .");
                out.append(a.as_str());
                out.append(" { ");
                out.append(inner);
                out.append(" }, ");
            } else {
                out.append(f.name.as_str());
                out.append(" := .");
                out.append(a.as_str());
                out.append(", ");
            }
        },
        ProjectionKind::Expression(e) => {
            out.append(f.name.as_str());
            out.append(" := ");
            out.append(e.as_str());
            out.append(", ");
        },
    }
    assert(final(out)@ =~= old(out)@ + fragment(f@, inner@));
}

impl Registry {
    /// An empty registry.
    pub fn new() -> (r: Registry)
        ensures
            r@ == Seq::<RecordView>::empty(),
    {
        let r = Registry { records: Vec::new() };
        assert(r@ =~= Seq::<RecordView>::empty());
        r
    }

    /// Adds a record type after those already registered.
    pub fn register(&mut self, t: RecordType)
        ensures
            final(self)@ == old(self)@.push(t@),
    {
        self.records.push(t);
        assert(self@ =~= old(self)@.push(t@));
    }

    /// The index of the first record type named `name`.
    pub fn find(&self, name: &String) -> (r: Option<usize>)
        ensures
            match r {
                Some(i) => i < self@.len() && find_record(self@, name@) == Some(i as int),
                None => find_record(self@, name@) is None,
            },
    {
        let n = self.records.len();
        let mut i: usize = 0;
        while i < n
            invariant
                n == self@.len(),
                i <= n,
                find_record(self@, name@) == find_from(self@, name@, i as int),
            decreases n - i,
        {
            if self.records[i].name == *name {
                return Some(i);
            }
            i = i + 1;
        }
        None
    }

    fn compile_record(&self, name: &String, depth: usize) -> (r: Result<String, DefinitionError>)
        ensures
            text_result(r) == record_shape(self@, name@, depth as nat),
        decreases depth, 0nat,
    {
        match self.find(name) {
            None => Err(DefinitionError::UnknownRecord { name: name.clone() }),
            Some(_) if depth == 0 => Err(DefinitionError::NestingCycle { name: name.clone() }),
            Some(i) => {
                assert(self@[i as int].fields == self.records[i as int].fields@.map_values(|f: FieldSpec| f@));
                self.compile_fields(&self.records[i].fields, depth - 1)
            },
        }
    }

    fn compile_fields(&self, fields: &Vec<FieldSpec>, depth: usize) -> (r: Result<String, DefinitionError>)
        ensures
            text_result(r) == fields_shape(
                self@,
                fields@.map_values(|f: FieldSpec| f@),
                fields@.len(),
                depth as nat,
            ),
        decreases depth, 1nat,
    {
        let ghost fv = fields@.map_values(|f: FieldSpec| f@);
        let mut out = String::new();
        let n = fields.len();
        let mut i: usize = 0;
        while i < n
            invariant
                n == fields@.len(),
                fv == fields@.map_values(|f: FieldSpec| f@),
                i <= n,
                fields_shape(self@, fv, i as nat, depth as nat) == Ok::<Seq<char>, ErrorView>(out@),
            decreases n - i,
        {
            let f = &fields[i];
            assert(fv[i as int] == f@);
            let target = match &f.kind {
                ProjectionKind::Expression(_) => None,
                _ => f.nested.as_ref(),
            };
            match target {
                Some(t) => match self.compile_record(t, depth) {
                    Err(e) => {
                        proof {
                            lemma_fields_error_kept(self@, fv, (i + 1) as nat, n as nat, depth as nat);
                        }
                        return Err(e);
                    },
                    Ok(inner) => {
                        projection_text(f, inner.as_str(), &mut out);
                    },
                },
                None => {
                    projection_text(f, "", &mut out);
                    assert(""@ =~= Seq::<char>::empty()) by {
                        reveal_strlit("");
                    }
                },
            }
            i = i + 1;
        }
        Ok(out)
    }

    /// The compiled shape of the record type `name`: the projection texts of
    /// its fields in declaration order, nested records resolved by name.
    pub fn shape(&self, name: &str) -> (r: Result<String, DefinitionError>)
        ensures
            text_result(r) == shape_of(self@, name@),
    {
        let name = String::from_str(name);
        self.compile_record(&name, self.records.len())
    }
}

} // verus!
