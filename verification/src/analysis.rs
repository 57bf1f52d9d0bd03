//! The analyzer's checks on the fields of one item: each field by
//! itself, and the names that fields use of each other.

use crate::error::{AnalysisError, AnalysisErrorView, ErrorKind};
use crate::fields_list::{find_field, lemma_lookup, lookup};
use crate::parsing::{Count, CountView, Field, FieldView, Fields, FieldsView};
use vstd::prelude::*;

verus! {

/// A concatenation is empty exactly when each of its pieces is.
pub proof fn lemma_flatten_empty<A>(parts: Seq<Seq<A>>)
    ensures
        parts.flatten().len() == 0 <==> forall|i: int|
            0 <= i < parts.len() ==> (#[trigger] parts[i]).len() == 0,
    decreases parts.len(),
{
    if parts.len() > 0 {
        lemma_flatten_empty(parts.drop_first());
        if parts.flatten().len() == 0 {
            assert forall|i: int| 0 <= i < parts.len() implies (#[trigger] parts[i]).len() == 0 by {
                if i > 0 {
                    assert(parts[i] == parts.drop_first()[i - 1]);
                }
            }
        } else {
            if parts.first().len() == 0 {
                let rest = parts.drop_first();
                let i = choose|i: int| 0 <= i < rest.len() && (#[trigger] rest[i]).len() != 0;
                assert(parts[i + 1] == rest[i]);
            }
        }
    }
}

/// What one of the pieces holds, the concatenation holds.
pub proof fn lemma_flatten_holds<A>(parts: Seq<Seq<A>>, k: int, x: A)
    requires
        0 <= k < parts.len(),
        parts[k].contains(x),
    ensures
        parts.flatten().contains(x),
    decreases parts.len(),
{
    let first = parts.first();
    let rest = parts.drop_first();
    assert(parts.flatten() =~= first + rest.flatten());
    if k == 0 {
        let j = choose|j: int| 0 <= j < first.len() && first[j] == x;
        assert(parts.flatten()[j] == x);
    } else {
        assert(rest[k - 1] == parts[k]);
        lemma_flatten_holds(rest, k - 1, x);
        let j = choose|j: int| 0 <= j < rest.flatten().len() && rest.flatten()[j] == x;
        assert(parts.flatten()[first.len() + j] == x);
    }
}

/// What one of two sequences holds, the two joined hold.
pub proof fn lemma_joined_holds<A>(a: Seq<A>, b: Seq<A>, x: A)
    requires
        a.contains(x) || b.contains(x),
    ensures
        (a + b).contains(x),
{
    if a.contains(x) {
        let j = choose|j: int| 0 <= j < a.len() && a[j] == x;
        assert((a + b)[j] == x);
    } else {
        let j = choose|j: int| 0 <= j < b.len() && b[j] == x;
        assert((a + b)[a.len() + j] == x);
    }
}

impl FieldView {
    /// The fields that the `compile` expression names, from left to
    /// right.
    pub open spec fn compile_inputs(self) -> Seq<Seq<char>> {
        match self.attrs.compile {
            Some(computed) => computed.referenced_fields(),
            None => Seq::empty(),
        }
    }
}

impl Field {
    /// The fields that the `compile` expression names, from left to
    /// right.
    pub fn compile_inputs(&self) -> (out: Vec<String>)
        ensures
            out.deep_view() == self@.compile_inputs(),
    {
        match &self.attrs.compile {
            Some(computed) => computed.referenced_fields(),
            None => {
                let out: Vec<String> = Vec::new();
                assert(out.deep_view() =~= Seq::<Seq<char>>::empty());
                out
            },
        }
    }
}

impl FieldsView {
    /// Every finding on a field by itself, field by field.
    pub open spec fn sanity_errors(self) -> Seq<AnalysisErrorView> {
        self.fields.map_values(|f: FieldView| f.sanity_errors()).flatten()
    }

    /// Whether field `j` can be what a length is computed from: a scalar
    /// that is there in every version. `scalars` are the names of the
    /// enumerations and flag sets of the schema, which are scalars too.
    pub open spec fn is_plain_scalar(self, j: int, scalars: Seq<Seq<char>>) -> bool {
        self.fields[j].typ.counts_as_scalar(scalars) && self.fields[j].attrs.available is None
    }

    /// Whether field `j` can be what a value is computed from when the
    /// table is written: a scalar that the owned table holds.
    pub open spec fn is_owned_scalar(self, j: int, scalars: Seq<Seq<char>>) -> bool {
        self.fields[j].typ.counts_as_scalar(scalars) && !self.fields[j].is_computed()
    }

    /// Whether `name`, as field `i` uses it, is bound: to a field that
    /// stands before field `i`, or to an argument of the item.
    pub open spec fn resolves(self, i: int, name: Seq<char>) -> bool {
        lookup(self.fields, i, name) is Some || self.arg(name) is Some
    }

    /// The finding on field `i` that says that it uses a name that is
    /// not bound.
    pub open spec fn unresolved(self, i: int, name: Seq<char>) -> AnalysisErrorView {
        AnalysisErrorView {
            kind: ErrorKind::UnresolvedReference,
            name: self.fields[i].name,
            span: self.fields[i].span,
            message: "no preceding field or argument named `"@ + name + "`"@,
        }
    }

    /// The finding on field `i` that says that the field behind a name
    /// cannot be what the name is used for.
    pub open spec fn misused(self, i: int, name: Seq<char>) -> AnalysisErrorView {
        AnalysisErrorView {
            kind: ErrorKind::TypeMisuse,
            name: self.fields[i].name,
            span: self.fields[i].span,
            message: "`"@ + name + "` cannot be used here: it is not a plain scalar"@,
        }
    }

    /// What there is to say of `name` as the length or the arguments of
    /// field `i` use it.
    pub open spec fn input_findings(self, i: int, name: Seq<char>, scalars: Seq<Seq<char>>) -> Seq<
        AnalysisErrorView,
    > {
        match lookup(self.fields, i, name) {
            Some(j) => if self.is_plain_scalar(j, scalars) {
                Seq::empty()
            } else {
                seq![self.misused(i, name)]
            },
            None => if self.arg(name) is Some {
                Seq::empty()
            } else {
                seq![self.unresolved(i, name)]
            },
        }
    }

    /// What there is to say of `name` as the `compile` expression of
    /// field `i` uses it.
    pub open spec fn compile_input_findings(
        self,
        i: int,
        name: Seq<char>,
        scalars: Seq<Seq<char>>,
    ) -> Seq<AnalysisErrorView> {
        match lookup(self.fields, i, name) {
            Some(j) => if self.is_owned_scalar(j, scalars) {
                Seq::empty()
            } else {
                seq![self.misused(i, name)]
            },
            None => if self.arg(name) is Some {
                Seq::empty()
            } else {
                seq![self.unresolved(i, name)]
            },
        }
    }

    /// Whether field `i` takes the rest of the bytes and is not the last.
    pub open spec fn misplaced(self, i: int) -> bool {
        self.fields[i].attrs.count == Some(CountView::All) && i + 1 < self.fields.len()
    }

    /// What there is to say of where field `i` stands.
    pub open spec fn placement_findings(self, i: int) -> Seq<AnalysisErrorView> {
        if self.misplaced(i) {
            seq![
                AnalysisErrorView {
                    kind: ErrorKind::TypeMisuse,
                    name: self.fields[i].name,
                    span: self.fields[i].span,
                    message: "#[count(..)] is only valid on the last field"@,
                },
            ]
        } else {
            Seq::empty()
        }
    }

    /// Every finding on the names that field `i` uses and on its place.
    pub open spec fn reference_errors_of(self, i: int, scalars: Seq<Seq<char>>) -> Seq<AnalysisErrorView> {
        self.fields[i].parse_inputs().map_values(|name: Seq<char>| self.input_findings(i, name, scalars)).flatten()
            + self.fields[i].compile_inputs().map_values(
            |name: Seq<char>| self.compile_input_findings(i, name, scalars),
        ).flatten() + self.placement_findings(i)
    }

    /// Every finding on the names that the fields use of each other,
    /// field by field.
    pub open spec fn reference_errors(self, scalars: Seq<Seq<char>>) -> Seq<AnalysisErrorView> {
        Seq::new(self.fields.len(), |i: int| self.reference_errors_of(i, scalars)).flatten()
    }
}

impl Fields {
    /// Checks each field against the rules that it has to meet by
    /// itself, and returns every finding, field by field.
    pub fn sanity_check(&self) -> (errors: Vec<AnalysisError>)
        ensures
            errors.deep_view() == self@.sanity_errors(),
            errors.len() == 0 <==> self@.sane(),
    {
        let mut errors: Vec<AnalysisError> = Vec::new();
        let ghost findings = |f: FieldView| f.sanity_errors();
        let ghost all = self@.fields.map_values(findings);
        let mut i: usize = 0;
        assert(errors.deep_view() =~= all.take(0).flatten());
        while i < self.fields.len()
            invariant
                i <= self.fields.len(),
                all == self@.fields.map_values(|f: FieldView| f.sanity_errors()),
                errors.deep_view() == all.take(i as int).flatten(),
            decreases self.fields.len() - i,
        {
            let mut found = self.fields[i].sanity_check();
            let ghost before = errors.deep_view();
            let ghost added = found.deep_view();
            errors.append(&mut found);
            proof {
                assert(errors.deep_view() =~= before + added);
                assert(all.take(i + 1) =~= all.take(i as int).push(added));
                all.take(i as int).lemma_flatten_push(added);
            }
            i += 1;
        }
        proof {
            assert(all.take(i as int) =~= all);
            lemma_flatten_empty(all);
            assert(errors.len() == errors.deep_view().len());
            if self@.sane() {
                assert forall|k: int| 0 <= k < all.len() implies (#[trigger] all[k]).len() == 0 by {
                    assert(self@.fields[k].sane());
                    crate::fields::lemma_sane_iff_no_findings(self@.fields[k]);
                }
            }
            if errors.len() == 0 {
                assert forall|k: int| 0 <= k < self@.fields.len() implies (
                #[trigger] self@.fields[k]).sane() by {
                    assert(all[k].len() == 0);
                    crate::fields::lemma_sane_iff_no_findings(self@.fields[k]);
                }
            }
        }
        errors
    }

    /// Appends what there is to say of `name` as field `i` uses it:
    /// for its length and arguments, or, where `owned` is set, for its
    /// `compile` expression.
    fn check_input(
        &self,
        i: usize,
        name: &String,
        owned: bool,
        scalars: &Vec<String>,
        errors: &mut Vec<AnalysisError>,
    )
        requires
            i < self.fields.len(),
        ensures
            final(errors).deep_view() == old(errors).deep_view() + (if owned {
                self@.compile_input_findings(i as int, name@, scalars.deep_view())
            } else {
                self@.input_findings(i as int, name@, scalars.deep_view())
            }),
    {
        let field = &self.fields[i];
        let ghost none = Seq::<AnalysisErrorView>::empty();
        match find_field(&self.fields, i, name) {
            Some(j) => {
                let source = &self.fields[j];
                let scalar = source.typ.counts_as_scalar(scalars);
                let fits = if owned {
                    scalar && !source.is_computed()
                } else {
                    scalar && source.attrs.available.is_none()
                };
                if fits {
                    assert(errors.deep_view() =~= old(errors).deep_view() + none);
                } else {
                    let message = String::from_str("`").concat(name.as_str()).concat(
                        "` cannot be used here: it is not a plain scalar",
                    );
                    errors.push(
                        AnalysisError::new(
                            ErrorKind::TypeMisuse,
                            field.name.as_str(),
                            field.span,
                            message.as_str(),
                        ),
                    );
                    assert(errors.deep_view() =~= old(errors).deep_view() + seq![
                        self@.misused(i as int, name@),
                    ]);
                }
            },
            None => {
                if self.find_arg(name).is_some() {
                    assert(errors.deep_view() =~= old(errors).deep_view() + none);
                } else {
                    let message = String::from_str("no preceding field or argument named `").concat(
                        name.as_str(),
                    ).concat("`");
                    errors.push(
                        AnalysisError::new(
                            ErrorKind::UnresolvedReference,
                            field.name.as_str(),
                            field.span,
                            message.as_str(),
                        ),
                    );
                    assert(errors.deep_view() =~= old(errors).deep_view() + seq![
                        self@.unresolved(i as int, name@),
                    ]);
                }
            },
        }
    }

    /// Appends what there is to say of each of `names` as field `i`
    /// uses it.
    fn check_inputs(
        &self,
        i: usize,
        names: &Vec<String>,
        owned: bool,
        scalars: &Vec<String>,
        errors: &mut Vec<AnalysisError>,
    )
        requires
            i < self.fields.len(),
        ensures
            final(errors).deep_view() == old(errors).deep_view() + (if owned {
                names.deep_view().map_values(
                    |name: Seq<char>| self@.compile_input_findings(i as int, name, scalars.deep_view()),
                ).flatten()
            } else {
                names.deep_view().map_values(
                    |name: Seq<char>| self@.input_findings(i as int, name, scalars.deep_view()),
                ).flatten()
            }),
    {
        let ghost finding = |name: Seq<char>|
            if owned {
                self@.compile_input_findings(i as int, name, scalars.deep_view())
            } else {
                self@.input_findings(i as int, name, scalars.deep_view())
            };
        let ghost all = names.deep_view().map_values(finding);
        let mut k: usize = 0;
        assert(errors.deep_view() =~= old(errors).deep_view() + all.take(0).flatten());
        while k < names.len()
            invariant
                k <= names.len(),
                i < self.fields.len(),
                all == names.deep_view().map_values(finding),
                finding == |name: Seq<char>|
                    if owned {
                        self@.compile_input_findings(i as int, name, scalars.deep_view())
                    } else {
                        self@.input_findings(i as int, name, scalars.deep_view())
                    },
                errors.deep_view() == old(errors).deep_view() + all.take(k as int).flatten(),
            decreases names.len() - k,
        {
            let ghost before = errors.deep_view();
            self.check_input(i, &names[k], owned, scalars, errors);
            proof {
                let added = finding(names[k as int]@);
                assert(all.take(k + 1) =~= all.take(k as int).push(added));
                all.take(k as int).lemma_flatten_push(added);
                assert(errors.deep_view() =~= old(errors).deep_view() + all.take(
                    k + 1,
                ).flatten());
            }
            k += 1;
        }
        proof {
            assert(all.take(k as int) =~= all);
            if owned {
                assert(all =~= names.deep_view().map_values(
                    |name: Seq<char>| self@.compile_input_findings(i as int, name, scalars.deep_view()),
                ));
            } else {
                assert(all =~= names.deep_view().map_values(
                    |name: Seq<char>| self@.input_findings(i as int, name, scalars.deep_view()),
                ));
            }
        }
    }

    /// Appends every finding on the names that field `i` uses and on
    /// its place.
    fn check_references_of(&self, i: usize, scalars: &Vec<String>, errors: &mut Vec<AnalysisError>)
        requires
            i < self.fields.len(),
        ensures
            final(errors).deep_view() == old(errors).deep_view() + self@.reference_errors_of(
                i as int,
                scalars.deep_view(),
            ),
    {
        let field = &self.fields[i];
        let inputs = field.parse_inputs();
        self.check_inputs(i, &inputs, false, scalars, errors);
        let ghost after_inputs = errors.deep_view();
        let compile_inputs = field.compile_inputs();
        self.check_inputs(i, &compile_inputs, true, scalars, errors);
        let ghost after_compile = errors.deep_view();
        if matches!(&field.attrs.count, Some(Count::All)) && i + 1 < self.fields.len() {
            errors.push(
                AnalysisError::new(
                    ErrorKind::TypeMisuse,
                    field.name.as_str(),
                    field.span,
                    "#[count(..)] is only valid on the last field",
                ),
            );
            assert(errors.deep_view() =~= after_compile + self@.placement_findings(i as int));
        } else {
            assert(errors.deep_view() =~= after_compile + self@.placement_findings(i as int));
        }
        assert(errors.deep_view() =~= old(errors).deep_view() + self@.reference_errors_of(i as int, scalars.deep_view()));
    }

    /// Checks the names that the fields use of each other, and where
    /// `count(..)` stands, and returns every finding, field by field.
    /// `scalars` are the names of the enumerations and flag sets of the
    /// schema.
    pub fn check_references(&self, scalars: &Vec<String>) -> (errors: Vec<AnalysisError>)
        ensures
            errors.deep_view() == self@.reference_errors(scalars.deep_view()),
    {
        let mut errors: Vec<AnalysisError> = Vec::new();
        let ghost all = Seq::new(self@.fields.len(), |i: int| self@.reference_errors_of(i, scalars.deep_view()));
        let mut i: usize = 0;
        assert(errors.deep_view() =~= all.take(0).flatten());
        while i < self.fields.len()
            invariant
                i <= self.fields.len(),
                all == Seq::new(self@.fields.len(), |i: int| self@.reference_errors_of(i, scalars.deep_view())),
                errors.deep_view() == all.take(i as int).flatten(),
            decreases self.fields.len() - i,
        {
            self.check_references_of(i, scalars, &mut errors);
            proof {
                assert(all.take(i + 1) =~= all.take(i as int).push(all[i as int]));
                all.take(i as int).lemma_flatten_push(all[i as int]);
            }
            i += 1;
        }
        assert(all.take(i as int) =~= all);
        errors
    }
}

/// Reference closure: where the analyzer has nothing to say of the
/// names that the fields of an item use, every name in a `count`, `len`,
/// `read_with_args` or `compile` expression of a field, and the name of
/// the version for a field that depends on it, is the name of a field
/// that stands before it, or of an argument of the item.
pub proof fn lemma_reference_closure(
    fields: FieldsView,
    scalars: Seq<Seq<char>>,
    i: int,
    name: Seq<char>,
)
    requires
        fields.reference_errors(scalars).len() == 0,
        0 <= i < fields.fields.len(),
        fields.fields[i].parse_inputs().contains(name) || fields.fields[i].compile_inputs().contains(
            name,
        ),
    ensures
        fields.resolves(i, name),
        (exists|j: int| 0 <= j < i && fields.fields[j].name == name) || fields.arg(name) is Some,
{
    let all = Seq::new(fields.fields.len(), |i: int| fields.reference_errors_of(i, scalars));
    lemma_flatten_empty(all);
    assert(all[i].len() == 0);
    let inputs = fields.fields[i].parse_inputs();
    let input_findings = inputs.map_values(|name: Seq<char>| fields.input_findings(i, name, scalars));
    let compile_inputs = fields.fields[i].compile_inputs();
    let compile_findings = compile_inputs.map_values(
        |name: Seq<char>| fields.compile_input_findings(i, name, scalars),
    );
    assert(input_findings.flatten().len() == 0);
    assert(compile_findings.flatten().len() == 0);
    lemma_flatten_empty(input_findings);
    lemma_flatten_empty(compile_findings);
    if inputs.contains(name) {
        let k = choose|k: int| 0 <= k < inputs.len() && inputs[k] == name;
        assert(input_findings[k].len() == 0);
    } else {
        let k = choose|k: int| 0 <= k < compile_inputs.len() && compile_inputs[k] == name;
        assert(compile_findings[k].len() == 0);
    }
    lemma_lookup(fields.fields, i, name);
}

/// A name that is not bound is found: where a field uses, for its
/// length, its arguments, its presence or its `compile` expression, a
/// name that belongs to no field before it and to no argument of the
/// item, the finding on that name is among those on the names that the
/// fields use.
pub proof fn lemma_unbound_name_is_found(
    fields: FieldsView,
    scalars: Seq<Seq<char>>,
    i: int,
    name: Seq<char>,
)
    requires
        0 <= i < fields.fields.len(),
        fields.fields[i].parse_inputs().contains(name) || fields.fields[i].compile_inputs().contains(
            name,
        ),
        !fields.resolves(i, name),
    ensures
        fields.reference_errors(scalars).contains(fields.unresolved(i, name)),
{
    let finding = fields.unresolved(i, name);
    let inputs = fields.fields[i].parse_inputs();
    let input_findings = inputs.map_values(|name: Seq<char>| fields.input_findings(i, name, scalars));
    let compile_inputs = fields.fields[i].compile_inputs();
    let compile_findings = compile_inputs.map_values(
        |name: Seq<char>| fields.compile_input_findings(i, name, scalars),
    );
    if inputs.contains(name) {
        let k = choose|k: int| 0 <= k < inputs.len() && inputs[k] == name;
        assert(input_findings[k] == seq![finding]);
        assert(input_findings[k][0] == finding);
        lemma_flatten_holds(input_findings, k, finding);
    } else {
        let k = choose|k: int| 0 <= k < compile_inputs.len() && compile_inputs[k] == name;
        assert(compile_findings[k] == seq![finding]);
        assert(compile_findings[k][0] == finding);
        lemma_flatten_holds(compile_findings, k, finding);
    }
    lemma_joined_holds(input_findings.flatten(), compile_findings.flatten(), finding);
    lemma_joined_holds(
        input_findings.flatten() + compile_findings.flatten(),
        fields.placement_findings(i),
        finding,
    );
    let all = Seq::new(fields.fields.len(), |i: int| fields.reference_errors_of(i, scalars));
    assert(all[i] == fields.reference_errors_of(i, scalars));
    lemma_flatten_holds(all, i, finding);
}

/// Where the analyzer has nothing to say of the names that the fields
/// of an item use, what a length or an argument is computed from, and
/// what decides whether a field is there, is a scalar that is there in
/// every version, or an argument of the item.
pub proof fn lemma_sources_are_plain(
    fields: FieldsView,
    scalars: Seq<Seq<char>>,
    i: int,
    name: Seq<char>,
)
    requires
        fields.reference_errors(scalars).len() == 0,
        0 <= i < fields.fields.len(),
        fields.fields[i].parse_inputs().contains(name),
    ensures
        match lookup(fields.fields, i, name) {
            Some(j) => 0 <= j < i && fields.is_plain_scalar(j, scalars),
            None => fields.arg(name) is Some,
        },
{
    let all = Seq::new(fields.fields.len(), |i: int| fields.reference_errors_of(i, scalars));
    lemma_flatten_empty(all);
    assert(all[i].len() == 0);
    let inputs = fields.fields[i].parse_inputs();
    let input_findings = inputs.map_values(|name: Seq<char>| fields.input_findings(i, name, scalars));
    assert(input_findings.flatten().len() == 0);
    lemma_flatten_empty(input_findings);
    let k = choose|k: int| 0 <= k < inputs.len() && inputs[k] == name;
    assert(input_findings[k].len() == 0);
    lemma_lookup(fields.fields, i, name);
}

} // verus!
