use vstd::prelude::*;

use crate::model::{
    AnnotationEntry, DeclaredType, DefinitionError, EntryView, ErrorView, FieldDefinition,
    FieldSpec, FieldView, KindView, ProjectionKind, RecordType, RecordView,
};

verus! {

/// What the annotation entries read so far have set: the projection kind, if
/// any, and whether `nested` was given.
pub struct ScanState {
    pub kind: Option<KindView>,
    pub nested: bool,
}

/// The effect of one annotation entry on the state of the field `field`.
pub open spec fn scan_entry(field: Seq<char>, st: ScanState, e: EntryView) -> Result<ScanState, ErrorView> {
    if e.key == "alias"@ || e.key == "exp"@ {
        if st.kind is Some {
            Err(ErrorView::ConflictingProjection { field })
        } else {
            match e.value {
                None => Err(ErrorView::MissingValue { field, key: e.key }),
                Some(v) => if v.len() == 0 {
                    if e.key == "alias"@ {
                        Err(ErrorView::EmptyAlias { field })
                    } else {
                        Err(ErrorView::EmptyExpression { field })
                    }
                } else if e.key == "alias"@ {
                    Ok(ScanState { kind: Some(KindView::Alias(v)), nested: st.nested })
                } else {
                    Ok(ScanState { kind: Some(KindView::Expression(v)), nested: st.nested })
                },
            }
        }
    } else if e.key == "nested"@ {
        if e.value is Some {
            Err(ErrorView::UnexpectedValue { field, key: e.key })
        } else {
            Ok(ScanState { kind: st.kind, nested: true })
        }
    } else {
        Err(ErrorView::UnknownAnnotation { field, key: e.key })
    }
}

/// The state after the first `n` annotation entries, or the first error.
pub open spec fn scan_entries(field: Seq<char>, entries: Seq<EntryView>, n: nat) -> Result<ScanState, ErrorView>
    decreases n,
{
    if n == 0 {
        Ok(ScanState { kind: None, nested: false })
    } else {
        match scan_entries(field, entries, (n - 1) as nat) {
            Err(e) => Err(e),
            Ok(st) => scan_entry(field, st, entries[n - 1]),
        }
    }
}

/// The record type name found in a declared type once one layer of
/// collection or option is taken off, if it is a named type reference.
pub open spec fn nested_target(t: DeclaredType) -> Option<Seq<char>> {
    match t {
        DeclaredType::Named(n) => Some(n@),
        DeclaredType::Collection(inner) => match *inner {
            DeclaredType::Named(n) => Some(n@),
            _ => None,
        },
        DeclaredType::Optional(inner) => match *inner {
            DeclaredType::Named(n) => Some(n@),
            _ => None,
        },
        DeclaredType::Other => None,
    }
}

pub open spec fn entries_view(d: FieldDefinition) -> Seq<EntryView> {
    d.annotations@.map_values(|e: AnnotationEntry| e@)
}

/// The field specification that a field definition denotes, or its error.
pub open spec fn field_of(d: FieldDefinition) -> Result<FieldView, ErrorView> {
    let entries = entries_view(d);
    match scan_entries(d.name@, entries, entries.len()) {
        Err(e) => Err(e),
        Ok(st) => {
            let kind = match st.kind {
                Some(k) => k,
                None => KindView::PlainName,
            };
            if st.nested {
                match nested_target(d.declared_type) {
                    None => Err(ErrorView::NestedNotTypeReference { field: d.name@ }),
                    Some(n) => Ok(FieldView { name: d.name@, kind, nested: Some(n) }),
                }
            } else {
                Ok(FieldView { name: d.name@, kind, nested: None })
            }
        },
    }
}

/// The field specifications of the first `n` definitions, or the first error.
pub open spec fn fields_of(defs: Seq<FieldDefinition>, n: nat) -> Result<Seq<FieldView>, ErrorView>
    decreases n,
{
    if n == 0 {
        Ok(Seq::empty())
    } else {
        match fields_of(defs, (n - 1) as nat) {
            Err(e) => Err(e),
            Ok(fs) => match field_of(defs[n - 1]) {
                Err(e) => Err(e),
                Ok(f) => Ok(fs.push(f)),
            },
        }
    }
}

/// Once an entry fails, the scan keeps that error.
proof fn lemma_scan_error_kept(field: Seq<char>, entries: Seq<EntryView>, k: nat, n: nat)
    requires
        k <= n,
        scan_entries(field, entries, k) is Err,
    ensures
        scan_entries(field, entries, n) == scan_entries(field, entries, k),
    decreases n - k,
{
    if k < n {
        lemma_scan_error_kept(field, entries, k, (n - 1) as nat);
    }
}

/// Once a definition fails, the fold over definitions keeps that error.
proof fn lemma_fields_error_kept(defs: Seq<FieldDefinition>, k: nat, n: nat)
    requires
        k <= n,
        fields_of(defs, k) is Err,
    ensures
        fields_of(defs, n) == fields_of(defs, k),
    decreases n - k,
{
    if k < n {
        lemma_fields_error_kept(defs, k, (n - 1) as nat);
    }
}

proof fn lemma_key_literals()
    ensures
        "nested"@ != "alias"@,
        "nested"@ != "exp"@,
        "alias"@ != "exp"@,
{
    reveal_strlit("nested");
    reveal_strlit("alias");
    reveal_strlit("exp");
    assert("nested"@.len() == 6 && "alias"@.len() == 5 && "exp"@.len() == 3);
}

/// Once a projection kind is set, a scan that goes on without error keeps one.
proof fn lemma_kind_kept(field: Seq<char>, entries: Seq<EntryView>, k: nat, n: nat)
    requires
        k <= n <= entries.len(),
        scan_entries(field, entries, k) matches Ok(st) && st.kind is Some,
    ensures
        scan_entries(field, entries, n) matches Ok(st) ==> st.kind is Some,
    decreases n - k,
{
    if k < n {
        lemma_kind_kept(field, entries, k, (n - 1) as nat);
    }
}

/// Once `nested` is set, a scan that goes on without error keeps it.
proof fn lemma_nested_kept(field: Seq<char>, entries: Seq<EntryView>, k: nat, n: nat)
    requires
        k <= n <= entries.len(),
        scan_entries(field, entries, k) matches Ok(st) && st.nested,
    ensures
        scan_entries(field, entries, n) matches Ok(st) ==> st.nested,
    decreases n - k,
{
    if k < n {
        lemma_nested_kept(field, entries, k, (n - 1) as nat);
    }
}

/// A field that carries both an `alias` and an `exp` entry fails.
pub proof fn alias_with_exp_fails(d: FieldDefinition, i: int, j: int)
    requires
        0 <= i < entries_view(d).len(),
        0 <= j < entries_view(d).len(),
        entries_view(d)[i].key == "alias"@,
        entries_view(d)[j].key == "exp"@,
    ensures
        field_of(d) is Err,
{
    lemma_key_literals();
    let entries = entries_view(d);
    let len = entries.len();
    let a: nat = if i < j { i as nat } else { j as nat };
    let b: nat = if i < j { j as nat } else { i as nat };
    assert(scan_entries(d.name@, entries, (a + 1) as nat) == match scan_entries(d.name@, entries, a) {
        Err(e) => Err(e),
        Ok(st) => scan_entry(d.name@, st, entries[a as int]),
    });
    if scan_entries(d.name@, entries, (a + 1) as nat) is Err {
        lemma_scan_error_kept(d.name@, entries, (a + 1) as nat, len);
    } else {
        lemma_kind_kept(d.name@, entries, (a + 1) as nat, b);
        assert(scan_entries(d.name@, entries, (b + 1) as nat) is Err);
        lemma_scan_error_kept(d.name@, entries, (b + 1) as nat, len);
    }
}

/// A field whose `alias` entry holds the empty string fails.
pub proof fn empty_alias_fails(d: FieldDefinition, i: int)
    requires
        0 <= i < entries_view(d).len(),
        entries_view(d)[i].key == "alias"@,
        entries_view(d)[i].value == Some(Seq::<char>::empty()),
    ensures
        field_of(d) is Err,
{
    let entries = entries_view(d);
    assert(scan_entries(d.name@, entries, (i + 1) as nat) is Err);
    lemma_scan_error_kept(d.name@, entries, (i + 1) as nat, entries.len());
}

/// A field marked `nested` whose type is not a bare or singly wrapped named
/// type fails.
pub proof fn nested_without_type_reference_fails(d: FieldDefinition, i: int)
    requires
        0 <= i < entries_view(d).len(),
        entries_view(d)[i].key == "nested"@,
        nested_target(d.declared_type) is None,
    ensures
        field_of(d) is Err,
{
    lemma_key_literals();
    let entries = entries_view(d);
    let len = entries.len();
    if scan_entries(d.name@, entries, (i + 1) as nat) is Err {
        lemma_scan_error_kept(d.name@, entries, (i + 1) as nat, len);
    } else {
        lemma_nested_kept(d.name@, entries, (i + 1) as nat, len);
    }
}

/// A field marked only `nested` whose type is `Vec<T>` or `Option<T>`, with
/// `T` a named type, nests the record type `T`, not the wrapper.
pub proof fn nested_unwraps_one_layer(d: FieldDefinition, target: Seq<char>)
    requires
        entries_view(d) == seq![EntryView { key: "nested"@, value: None }],
        match d.declared_type {
            DeclaredType::Collection(inner) => *inner matches DeclaredType::Named(n) && n@ == target,
            DeclaredType::Optional(inner) => *inner matches DeclaredType::Named(n) && n@ == target,
            _ => false,
        },
    ensures
        field_of(d) == Ok::<FieldView, ErrorView>(
            FieldView { name: d.name@, kind: KindView::PlainName, nested: Some(target) },
        ),
{
    lemma_key_literals();
    let entries = entries_view(d);
    assert(entries[0].key == "nested"@);
    assert(scan_entries(d.name@, entries, 0) == Ok::<ScanState, ErrorView>(ScanState { kind: None, nested: false }));
    assert(scan_entries(d.name@, entries, 1) == Ok::<ScanState, ErrorView>(ScanState { kind: None, nested: true }));
}

pub open spec fn field_result(r: Result<FieldSpec, DefinitionError>) -> Result<FieldView, ErrorView> {
    match r {
        Ok(f) => Ok(f@),
        Err(e) => Err(e@),
    }
}

/// Record-level counterpart of [`field_result`].
pub open spec fn record_result(r: Result<RecordType, DefinitionError>) -> Result<RecordView, ErrorView> {
    match r {
        Ok(t) => Ok(t@),
        Err(e) => Err(e@),
    }
}

fn resolve_nested(t: &DeclaredType) -> (r: Option<String>)
    ensures
        match r {
            Some(s) => nested_target(*t) == Some(s@),
            None => nested_target(*t) is None,
        },
{
    match t {
        DeclaredType::Named(n) => Some(n.clone()),
        DeclaredType::Collection(inner) => match &**inner {
            DeclaredType::Named(n) => Some(n.clone()),
            _ => None,
        },
        DeclaredType::Optional(inner) => match &**inner {
            DeclaredType::Named(n) => Some(n.clone()),
            _ => None,
        },
        DeclaredType::Other => None,
    }
}

/// Turns a field definition into the field specification its annotations
/// denote.
///
/// Entries are read in order; the first offending entry decides the error.
/// `nested` alongside `exp` is accepted, and the nested record is then not
/// consulted when the shape is compiled.
pub fn parse_field(d: &FieldDefinition) -> (r: Result<FieldSpec, DefinitionError>)
    ensures
        field_result(r) == field_of(*d),
        r matches Ok(f) ==> f@.well_formed(),
{
    let ghost entries = entries_view(*d);
    let alias_key = String::from_str("alias");
    let exp_key = String::from_str("exp");
    let nested_key = String::from_str("nested");
    let mut kind: Option<ProjectionKind> = None;
    let mut nested = false;
    let n = d.annotations.len();
    let mut i: usize = 0;
    while i < n
        invariant
            n == d.annotations@.len(),
            entries == entries_view(*d),
            kind matches Some(k) ==> (FieldView { name: d.name@, kind: k@, nested: None }).well_formed(),
            i <= n,
            alias_key@ == "alias"@,
            exp_key@ == "exp"@,
            nested_key@ == "nested"@,
            scan_entries(d.name@, entries, i as nat) == Ok::<ScanState, ErrorView>(
                ScanState {
                    kind: match kind {
                        Some(k) => Some(k@),
                        None => None,
                    },
                    nested,
                },
            ),
        decreases n - i,
    {
        let e = &d.annotations[i];
        assert(entries[i as int] == e@);
        proof {
            if scan_entries(d.name@, entries, (i + 1) as nat) is Err {
                lemma_scan_error_kept(d.name@, entries, (i + 1) as nat, n as nat);
            }
        }
        if e.key == alias_key || e.key == exp_key {
            if kind.is_some() {
                return Err(DefinitionError::ConflictingProjection { field: d.name.clone() });
            }
            match &e.value {
                None => {
                    return Err(DefinitionError::MissingValue { field: d.name.clone(), key: e.key.clone() });
                },
                Some(v) => {
                    if v.as_str().unicode_len() == 0 {
                        if e.key == alias_key {
                            return Err(DefinitionError::EmptyAlias { field: d.name.clone() });
                        } else {
                            return Err(DefinitionError::EmptyExpression { field: d.name.clone() });
                        }
                    }
                    if e.key == alias_key {
                        kind = Some(ProjectionKind::Alias(v.clone()));
                    } else {
                        kind = Some(ProjectionKind::Expression(v.clone()));
                    }
                },
            }
        } else if e.key == nested_key {
            if e.value.is_some() {
                return Err(DefinitionError::UnexpectedValue { field: d.name.clone(), key: e.key.clone() });
            }
            nested = true;
        } else {
            return Err(DefinitionError::UnknownAnnotation { field: d.name.clone(), key: e.key.clone() });
        }
        i = i + 1;
    }
    let kind = match kind {
        Some(k) => k,
        None => ProjectionKind::PlainName,
    };
    if nested {
        match resolve_nested(&d.declared_type) {
            None => Err(DefinitionError::NestedNotTypeReference { field: d.name.clone() }),
            Some(t) => Ok(FieldSpec { name: d.name.clone(), kind, nested: Some(t) }),
        }
    } else {
        Ok(FieldSpec { name: d.name.clone(), kind, nested: None })
    }
}

/// Builds the record type `name` from its field definitions, in order.
pub fn derive_shape(name: &str, defs: &Vec<FieldDefinition>) -> (r: Result<RecordType, DefinitionError>)
    ensures
        match r {
            Ok(t) => t.name@ == name@ && fields_of(defs@, defs@.len()) == Ok::<Seq<FieldView>, ErrorView>(t@.fields),
            Err(e) => fields_of(defs@, defs@.len()) == Err::<Seq<FieldView>, ErrorView>(e@),
        },
        r matches Ok(t) ==> forall|k: int| 0 <= k < t@.fields.len() ==> (#[trigger] t@.fields[k]).well_formed(),
{
    let mut fields: Vec<FieldSpec> = Vec::new();
    assert(fields@.map_values(|f: FieldSpec| f@) =~= Seq::<FieldView>::empty());
    let n = defs.len();
    let mut i: usize = 0;
    while i < n
        invariant
            n == defs@.len(),
            i <= n,
            fields_of(defs@, i as nat) == Ok::<Seq<FieldView>, ErrorView>(fields@.map_values(|f: FieldSpec| f@)),
            forall|k: int| 0 <= k < fields@.len() ==> (#[trigger] fields@[k])@.well_formed(),
        decreases n - i,
    {
        match parse_field(&defs[i]) {
            Err(e) => {
                proof {
                    lemma_fields_error_kept(defs@, (i + 1) as nat, n as nat);
                }
                return Err(e);
            },
            Ok(f) => {
                let ghost before = fields@.map_values(|f: FieldSpec| f@);
                fields.push(f);
                assert(fields@.map_values(|f: FieldSpec| f@) =~= before.push(f@));
            },
        }
        i = i + 1;
    }
    let t = RecordType { name: String::from_str(name), fields };
    assert(t@.fields == fields@.map_values(|f: FieldSpec| f@));
    Ok(t)
}

} // verus!
