//! Command specifications: the compiled metadata (name, argument schema,
//! help texts) under which a command type is registered.

use vstd::prelude::*;
use vstd::string::StrSliceExecFns;
use vstd::string::StringExecFns;

verus! {

/// How one declared field of a command is supplied on the line.
#[derive(Debug, PartialEq, Eq)]
pub enum FieldKind {
    /// Supplied by position among the non-flag tokens.
    Positional { required: bool },
    /// Supplied as `--id value`; when absent, the default (if any) is bound.
    Flag { default: Option<String> },
}

/// Mathematical model of a field kind.
pub ghost enum FieldKindModel {
    Positional { required: bool },
    Flag { default: Option<Seq<char>> },
}

impl View for FieldKind {
    type V = FieldKindModel;

    open spec fn view(&self) -> FieldKindModel {
        match self {
            FieldKind::Positional { required } => FieldKindModel::Positional {
                required: *required,
            },
            FieldKind::Flag { default } => FieldKindModel::Flag {
                default: match default {
                    Option::None => Option::None,
                    Option::Some(d) => Option::Some(d@),
                },
            },
        }
    }
}

/// One declared field of a command: its identifier, how it is supplied,
/// and a short help text.
#[derive(Debug, PartialEq, Eq)]
pub struct FieldSpec {
    pub id: String,
    pub kind: FieldKind,
    pub help: String,
}

/// Mathematical model of a field.
pub ghost struct FieldModel {
    pub id: Seq<char>,
    pub kind: FieldKindModel,
    pub help: Seq<char>,
}

impl View for FieldSpec {
    type V = FieldModel;

    open spec fn view(&self) -> FieldModel {
        FieldModel { id: self.id@, kind: self.kind@, help: self.help@ }
    }
}

impl DeepView for FieldSpec {
    type V = FieldModel;

    open spec fn deep_view(&self) -> FieldModel {
        self.view()
    }
}

impl FieldSpec {
    /// A positional field.
    pub fn positional(id: String, required: bool, help: String) -> (r: Self)
        ensures
            r@ == (FieldModel {
                id: id@,
                kind: FieldKindModel::Positional { required },
                help: help@,
            }),
    {
        FieldSpec { id, kind: FieldKind::Positional { required }, help }
    }

    /// A flag field, optionally with a default value.
    pub fn flag(id: String, default: Option<String>, help: String) -> (r: Self)
        ensures
            r@ == (FieldModel {
                id: id@,
                kind: FieldKindModel::Flag {
                    default: match default {
                        Option::None => Option::None::<Seq<char>>,
                        Option::Some(d) => Option::Some(d@),
                    },
                },
                help: help@,
            }),
    {
        FieldSpec { id, kind: FieldKind::Flag { default }, help }
    }
}

/// A command specification: unique name, argument schema, a one-line
/// summary and a long-form help text.
#[derive(Debug, PartialEq, Eq)]
pub struct CommandSpec {
    pub name: String,
    pub summary: String,
    pub long_help: String,
    pub fields: Vec<FieldSpec>,
}

/// Mathematical model of a command specification.
pub ghost struct SpecModel {
    pub name: Seq<char>,
    pub summary: Seq<char>,
    pub long_help: Seq<char>,
    pub fields: Seq<FieldModel>,
}

impl View for CommandSpec {
    type V = SpecModel;

    open spec fn view(&self) -> SpecModel {
        SpecModel {
            name: self.name@,
            summary: self.summary@,
            long_help: self.long_help@,
            fields: self.fields.deep_view(),
        }
    }
}

impl DeepView for CommandSpec {
    type V = SpecModel;

    open spec fn deep_view(&self) -> SpecModel {
        self.view()
    }
}

impl CommandSpec {
    /// A command specification from its parts.
    pub fn new(name: String, summary: String, long_help: String, fields: Vec<FieldSpec>) -> (r:
        Self)
        ensures
            r@ == (SpecModel {
                name: name@,
                summary: summary@,
                long_help: long_help@,
                fields: fields.deep_view(),
            }),
    {
        CommandSpec { name, summary, long_help, fields }
    }
}

/// Whether a field identifier can be compiled into an argument parser: it
/// is nonempty, does not begin with a dash, and does not collide with the
/// parser's own help flag.
pub open spec fn wf_field_id(id: Seq<char>) -> bool {
    id.len() > 0 && id[0] != '-' && id != "help"@
}

/// Whether a field is positional, and if so whether it is required.
pub open spec fn positional_required(f: FieldModel) -> Option<bool> {
    match f.kind {
        FieldKindModel::Positional { required } => Option::Some(required),
        FieldKindModel::Flag { .. } => Option::None,
    }
}

impl SpecModel {
    /// Whether the schema can be compiled into an argument parser: the name
    /// is nonempty, field identifiers are well formed and pairwise
    /// distinct, and no required positional field follows an optional one.
    pub open spec fn wf(self) -> bool {
        &&& self.name.len() > 0
        &&& forall|i: int|
            0 <= i < self.fields.len() ==> wf_field_id((#[trigger] self.fields[i]).id)
        &&& forall|i: int, j: int|
            0 <= i < j < self.fields.len() ==> (#[trigger] self.fields[i]).id != (
            #[trigger] self.fields[j]).id
        &&& forall|i: int, j: int|
            0 <= i < j < self.fields.len() && positional_required(#[trigger] self.fields[i])
                == Option::Some(false) ==> positional_required(#[trigger] self.fields[j])
                != Option::Some(true)
    }
}

impl CommandSpec {
    /// Decides whether this schema can be compiled into an argument
    /// parser. Registration demands it; callers building schemas at run
    /// time check here first.
    pub fn is_well_formed(&self) -> (r: bool)
        ensures
            r == self@.wf(),
    {
        if self.name.as_str().is_empty() {
            return false;
        }
        let help_str = String::from_str("help");
        proof {
            reveal_strlit("help");
        }
        let n = self.fields.len();
        let mut i: usize = 0;
        while i < n
            invariant
                n == self.fields.len(),
                i <= n,
                help_str@ == "help"@,
                forall|k: int| 0 <= k < i ==> wf_field_id((#[trigger] self@.fields[k]).id),
            decreases n - i,
        {
            let id = &self.fields[i].id;
            if id.as_str().is_empty() {
                return false;
            }
            if id.as_str().get_char(0) == '-' {
                return false;
            }
            if self.fields[i].id == help_str {
                proof {
                    let k = i as int;
                    assert(0 <= k < self@.fields.len());
                    assert(!wf_field_id(self@.fields[k].id));
                    assert(!(forall|m: int|
                        0 <= m < self@.fields.len() ==> wf_field_id(
                            (#[trigger] self@.fields[m]).id,
                        )));
                    assert(!self@.wf());
                }
                return false;
            }
            proof {
                assert(wf_field_id(self@.fields[i as int].id));
            }
            i = i + 1;
        }
        let mut i: usize = 0;
        while i < n
            invariant
                n == self.fields.len(),
                i <= n,
                forall|a: int, b: int|
                    0 <= a < b < n && a < i ==> (#[trigger] self@.fields[a]).id != (
                    #[trigger] self@.fields[b]).id,
            decreases n - i,
        {
            let mut j: usize = i + 1;
            while j < n
                invariant
                    n == self.fields.len(),
                    i < j <= n,
                    forall|b: int|
                        i < b < j ==> (#[trigger] self@.fields[b]).id != self@.fields[i as int].id,
                decreases n - j,
            {
                if self.fields[i].id == self.fields[j].id {
                    proof {
                        let a = i as int;
                        let b = j as int;
                        assert(0 <= a < b < self@.fields.len());
                        assert(self@.fields[a].id == self@.fields[b].id);
                        assert(!(forall|x: int, y: int|
                            0 <= x < y < self@.fields.len() ==> (#[trigger] self@.fields[x]).id
                                != (#[trigger] self@.fields[y]).id));
                        assert(!self@.wf());
                    }
                    return false;
                }
                j = j + 1;
            }
            i = i + 1;
        }
        let mut seen_optional: bool = false;
        let mut i: usize = 0;
        while i < n
            invariant
                n == self.fields.len(),
                i <= n,
                seen_optional == exists|a: int|
                    0 <= a < i && positional_required(#[trigger] self@.fields[a]) == Option::Some(
                        false,
                    ),
                forall|a: int, b: int|
                    0 <= a < b < i && positional_required(#[trigger] self@.fields[a])
                        == Option::Some(false) ==> positional_required(#[trigger] self@.fields[b])
                        != Option::Some(true),
            decreases n - i,
        {
            match &self.fields[i].kind {
                FieldKind::Positional { required } => {
                    if *required {
                        if seen_optional {
                            proof {
                                let a = choose|a: int|
                                    0 <= a < i && positional_required(#[trigger] self@.fields[a])
                                        == Option::Some(false);
                                assert(positional_required(self@.fields[i as int]) == Option::Some(
                                    true,
                                ));
                                assert(!self@.wf());
                            }
                            return false;
                        }
                    } else {
                        seen_optional = true;
                        proof {
                            assert(positional_required(self@.fields[i as int]) == Option::Some(
                                false,
                            ));
                        }
                    }
                },
                FieldKind::Flag { .. } => {},
            }
            i = i + 1;
        }
        true
    }
}

} // verus!
