//! Typed-argument parsing: the argument-parser capability behind the
//! dispatcher, and the bindings a successful parse produces.
//!
//! The grammar itself (how flags, defaults and usage errors behave) is the
//! parser library's; this module pins only what the dispatcher relies on:
//! the outcome is a function of the schema and the tokens alone, a success
//! binds every declared field in declaration order, and a failure carries a
//! rendered, unstyled error or usage text.

use vstd::prelude::*;

use crate::schema::{CommandSpec, FieldKind, FieldModel, FieldSpec};

verus! {

/// What parsing `args` against the schema `(name, fields)` yields: on
/// success one optional value per declared field, in declaration order; on
/// failure the rendered error or usage text.
pub uninterp spec fn clap_outcome(name: Seq<char>, fields: Seq<FieldModel>, args: Seq<Seq<char>>) -> Result<
    Seq<Option<Seq<char>>>,
    Seq<char>,
>;

#[verifier::external_type_specification]
#[verifier::external_body]
pub struct ExArg(clap::Arg);

/// Relies on clap's `Arg` builder: the argument declared by one field —
/// supplied by position, or as `--id <value>` with an optional default.
#[verifier::external_body]
fn arg_of_field(f: &FieldSpec) -> clap::Arg {
    let a = clap::Arg::new(f.id.clone());
    match &f.kind {
        FieldKind::Positional { required } => a.required(*required),
        FieldKind::Flag { default: None } => a.long(f.id.clone()),
        FieldKind::Flag { default: Some(d) } => a.long(f.id.clone()).default_value(d.clone()),
    }
}

/// Relies on clap: a `Command` built from the schema (one argument per
/// declared field) parses the token list with `try_get_matches_from`; on
/// success `ArgMatches::get_one` reads each field back in declaration
/// order, on failure `Error::render` gives the error or usage text. The
/// outcome is a function of the schema and the tokens alone. The
/// well-formedness demanded below is what keeps clap's own schema
/// validation from panicking.
#[verifier::external_body]
fn run_arg_parser(spec: &CommandSpec, args: &Vec<String>) -> (r: Result<Vec<Option<String>>, String>)
    requires
        spec@.wf(),
    ensures
        match r {
            Result::Ok(vals) => clap_outcome(spec@.name, spec@.fields, args.deep_view())
                == Result::<Seq<Option<Seq<char>>>, Seq<char>>::Ok(vals.deep_view())
                && vals@.len() == spec.fields@.len(),
            Result::Err(text) => clap_outcome(spec@.name, spec@.fields, args.deep_view())
                == Result::<Seq<Option<Seq<char>>>, Seq<char>>::Err(text@),
        },
{
    let mut cmd = clap::Command::new(spec.name.clone()).no_binary_name(true);
    for f in &spec.fields {
        cmd = cmd.arg(arg_of_field(f));
    }
    match cmd.try_get_matches_from(args) {
        Ok(m) => Ok(spec.fields.iter().map(|f| m.get_one(&f.id).cloned()).collect()),
        Err(e) => Err(e.render().to_string()),
    }
}

/// One parsed binding: a field identifier and the value bound to it, if
/// any.
#[derive(Debug, PartialEq, Eq)]
pub struct ArgBinding {
    pub id: String,
    pub value: Option<String>,
}

/// Mathematical model of one binding.
pub ghost struct BindingModel {
    pub id: Seq<char>,
    pub value: Option<Seq<char>>,
}

impl View for ArgBinding {
    type V = BindingModel;

    open spec fn view(&self) -> BindingModel {
        BindingModel {
            id: self.id@,
            value: match &self.value {
                Option::None => Option::None,
                Option::Some(v) => Option::Some(v@),
            },
        }
    }
}

impl DeepView for ArgBinding {
    type V = BindingModel;

    open spec fn deep_view(&self) -> BindingModel {
        self.view()
    }
}

/// The bindings of a successful parse: the declared fields paired with the
/// values the parse bound, in declaration order.
pub open spec fn zip_bindings(fields: Seq<FieldModel>, vals: Seq<Option<Seq<char>>>) -> Seq<
    BindingModel,
> {
    Seq::new(fields.len(), |i: int| BindingModel { id: fields[i].id, value: vals[i] })
}

/// The typed value of a successfully parsed command: one binding per
/// declared field.
#[derive(Debug, PartialEq, Eq)]
pub struct ParsedArgs {
    pub bindings: Vec<ArgBinding>,
}

impl View for ParsedArgs {
    type V = Seq<BindingModel>;

    open spec fn view(&self) -> Seq<BindingModel> {
        self.bindings.deep_view()
    }
}

impl DeepView for ParsedArgs {
    type V = Seq<BindingModel>;

    open spec fn deep_view(&self) -> Seq<BindingModel> {
        self.view()
    }
}

/// The value bound to the first binding with the given identifier, if that
/// binding holds one.
pub open spec fn spec_value_of(bs: Seq<BindingModel>, id: Seq<char>) -> Option<Seq<char>>
    decreases bs.len(),
{
    if bs.len() == 0 {
        Option::None
    } else if bs[0].id == id {
        bs[0].value
    } else {
        spec_value_of(bs.drop_first(), id)
    }
}

impl ParsedArgs {
    /// Pairs the declared fields with the values a successful parse bound.
    pub fn from_values(spec: &CommandSpec, vals: &Vec<Option<String>>) -> (r: Self)
        requires
            vals@.len() == spec.fields@.len(),
        ensures
            r@ == zip_bindings(spec@.fields, vals.deep_view()),
    {
        let mut bindings: Vec<ArgBinding> = Vec::new();
        let mut i: usize = 0;
        while i < spec.fields.len()
            invariant
                i <= spec.fields.len(),
                vals@.len() == spec.fields@.len(),
                bindings.deep_view() =~= zip_bindings(spec.fields.deep_view(), vals.deep_view())
                    .subrange(0, i as int),
            decreases spec.fields.len() - i,
        {
            let value: Option<String> = match &vals[i] {
                Option::None => Option::None,
                Option::Some(v) => Option::Some(v.clone()),
            };
            proof {
                assert(value.deep_view() == vals.deep_view()[i as int]);
            }
            let binding = ArgBinding { id: spec.fields[i].id.clone(), value };
            proof {
                assert(binding@ == zip_bindings(spec.fields.deep_view(), vals.deep_view())[i as int]);
            }
            let ghost prev_dv = bindings.deep_view();
            bindings.push(binding);
            i = i + 1;
            proof {
                let zb = zip_bindings(spec.fields.deep_view(), vals.deep_view());
                assert(bindings.deep_view() =~= prev_dv.push(binding@));
                assert(zb.subrange(0, i as int) =~= zb.subrange(0, i as int - 1).push(
                    zb[i as int - 1],
                ));
                assert(bindings.deep_view() =~= zb.subrange(0, i as int));
            }
        }
        proof {
            assert(zip_bindings(spec.fields.deep_view(), vals.deep_view()).subrange(
                0,
                spec.fields@.len() as int,
            ) =~= zip_bindings(spec.fields.deep_view(), vals.deep_view()));
        }
        ParsedArgs { bindings }
    }

    /// The value bound to the named field, if any: the field's parsed or
    /// default value, or nothing for an absent optional field or an unknown
    /// identifier.
    pub fn value_of(&self, id: &String) -> (r: Option<String>)
        ensures
            match r {
                Option::Some(v) => spec_value_of(self@, id@) == Option::Some(v@),
                Option::None => spec_value_of(self@, id@) is None,
            },
    {
        let mut i: usize = 0;
        proof {
            assert(self.bindings.deep_view().skip(0) =~= self.bindings.deep_view());
        }
        while i < self.bindings.len()
            invariant
                i <= self.bindings.len(),
                spec_value_of(self@, id@) == spec_value_of(
                    self.bindings.deep_view().skip(i as int),
                    id@,
                ),
            decreases self.bindings.len() - i,
        {
            let ghost bs = self.bindings.deep_view().skip(i as int);
            proof {
                assert(bs[0] == self.bindings.deep_view()[i as int]);
                assert(bs.drop_first() =~= self.bindings.deep_view().skip(i as int + 1));
            }
            if self.bindings[i].id == *id {
                proof {
                    assert(bs[0].id == id@);
                    assert(spec_value_of(self@, id@) == bs[0].value);
                }
                match &self.bindings[i].value {
                    Option::None => {
                        return Option::None;
                    },
                    Option::Some(v) => {
                        return Option::Some(v.clone());
                    },
                }
            }
            i = i + 1;
        }
        proof {
            assert(self.bindings.deep_view().skip(self.bindings@.len() as int)
                =~= Seq::<BindingModel>::empty());
        }
        Option::None
    }
}

/// Parses the arguments of a tokenized event against a schema: on success
/// the typed bindings, on failure the parser's rendered error or usage
/// text. The outcome is `clap_outcome` of the schema and the tokens.
pub fn parse_args(spec: &CommandSpec, args: &Vec<String>) -> (r: Result<ParsedArgs, String>)
    requires
        spec@.wf(),
    ensures
        match r {
            Result::Ok(parsed) => clap_outcome(spec@.name, spec@.fields, args.deep_view())
                matches Result::Ok(vals) && parsed@ == zip_bindings(spec@.fields, vals),
            Result::Err(text) => clap_outcome(spec@.name, spec@.fields, args.deep_view())
                == Result::<Seq<Option<Seq<char>>>, Seq<char>>::Err(text@),
        },
{
    match run_arg_parser(spec, args) {
        Result::Ok(vals) => Result::Ok(ParsedArgs::from_values(spec, &vals)),
        Result::Err(text) => Result::Err(text),
    }
}

} // verus!
