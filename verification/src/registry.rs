//! The command registry: a mapping from command name to its compiled
//! specification, mutated only by registration, where the last writer wins.

use vstd::prelude::*;

use crate::schema::{CommandSpec, SpecModel};

verus! {

/// The specification registered under `name`: the first entry carrying
/// that name, which registration keeps unique.
pub open spec fn reg_lookup(entries: Seq<SpecModel>, name: Seq<char>) -> Option<SpecModel>
    decreases entries.len(),
{
    if entries.len() == 0 {
        Option::None
    } else if entries[0].name == name {
        Option::Some(entries[0])
    } else {
        reg_lookup(entries.drop_first(), name)
    }
}

/// The registry after registering `sp`: the entry with the same name is
/// replaced in place, or `sp` is appended if no entry carries its name.
pub open spec fn reg_step(entries: Seq<SpecModel>, sp: SpecModel) -> Seq<SpecModel>
    decreases entries.len(),
{
    if entries.len() == 0 {
        seq![sp]
    } else if entries[0].name == sp.name {
        seq![sp] + entries.drop_first()
    } else {
        seq![entries[0]] + reg_step(entries.drop_first(), sp)
    }
}

/// A lookup misses exactly when no entry carries the name, and a hit is an
/// entry of the registry carrying it.
pub proof fn lemma_reg_lookup_props(entries: Seq<SpecModel>, name: Seq<char>)
    ensures
        match reg_lookup(entries, name) {
            Option::None => forall|j: int|
                0 <= j < entries.len() ==> (#[trigger] entries[j]).name != name,
            Option::Some(p) => p.name == name && exists|j: int|
                0 <= j < entries.len() && entries[j] == p,
        },
    decreases entries.len(),
{
    if entries.len() > 0 {
        lemma_reg_lookup_props(entries.drop_first(), name);
        if entries[0].name != name {
            match reg_lookup(entries.drop_first(), name) {
                Option::None => {
                    assert(forall|j: int|
                        1 <= j < entries.len() ==> (#[trigger] entries[j])
                            == entries.drop_first()[j - 1]);
                },
                Option::Some(p) => {
                    let j = choose|j: int|
                        0 <= j < entries.drop_first().len() && entries.drop_first()[j] == p;
                    assert(entries[j + 1] == p);
                },
            }
        }
    }
}

/// Registration is last-writer-wins for its own name and leaves every
/// other name's lookup unchanged.
pub proof fn lemma_reg_step_lookup(entries: Seq<SpecModel>, sp: SpecModel, name: Seq<char>)
    ensures
        reg_lookup(reg_step(entries, sp), name) == if name == sp.name {
            Option::Some(sp)
        } else {
            reg_lookup(entries, name)
        },
    decreases entries.len(),
{
    if entries.len() == 0 {
        assert(reg_step(entries, sp) == seq![sp]);
        assert(reg_step(entries, sp).drop_first() =~= Seq::<SpecModel>::empty());
    } else if entries[0].name == sp.name {
        let stepped = reg_step(entries, sp);
        assert(stepped[0] == sp);
        assert(stepped.drop_first() =~= entries.drop_first());
        if name != sp.name {
            assert(reg_lookup(entries, name) == reg_lookup(entries.drop_first(), name));
        }
    } else {
        let stepped = reg_step(entries, sp);
        assert(stepped[0] == entries[0]);
        assert(stepped.drop_first() =~= reg_step(entries.drop_first(), sp));
        lemma_reg_step_lookup(entries.drop_first(), sp, name);
    }
}

/// Registering two specifications under one name: after the first the
/// name resolves to the first, and after the second it resolves to the
/// second alone — the last writer wins.
pub proof fn lemma_last_registration_wins(entries: Seq<SpecModel>, s1: SpecModel, s2: SpecModel)
    requires
        s1.name == s2.name,
    ensures
        reg_lookup(reg_step(entries, s1), s1.name) == Option::Some(s1),
        reg_lookup(reg_step(reg_step(entries, s1), s2), s1.name) == Option::Some(s2),
{
    lemma_reg_step_lookup(entries, s1, s1.name);
    lemma_reg_step_lookup(reg_step(entries, s1), s2, s1.name);
}

/// The command registry. Entries carry pairwise distinct names and
/// schemas fit for compilation into an argument parser.
pub struct CommandMetaMap {
    pub entries: Vec<CommandSpec>,
}

impl View for CommandMetaMap {
    type V = Seq<SpecModel>;

    open spec fn view(&self) -> Seq<SpecModel> {
        self.entries.deep_view()
    }
}

impl CommandMetaMap {
    /// Entries carry pairwise distinct names, and every registered schema
    /// is fit for compilation into an argument parser.
    pub open spec fn inv(&self) -> bool {
        &&& forall|i: int, j: int|
            0 <= i < j < self@.len() ==> (#[trigger] self@[i]).name != (#[trigger] self@[j]).name
        &&& forall|i: int| 0 <= i < self@.len() ==> (#[trigger] self@[i]).wf()
    }

    /// An empty registry.
    pub fn new() -> (r: Self)
        ensures
            r@ == Seq::<SpecModel>::empty(),
            r.inv(),
    {
        let r = CommandMetaMap { entries: Vec::new() };
        proof {
            assert(r@ =~= Seq::<SpecModel>::empty());
        }
        r
    }

    /// Registers a specification under its name, overwriting silently: the
    /// prior specification under that name is returned, so the caller can
    /// log a collision warning, and the last writer wins.
    pub fn register(&mut self, spec: CommandSpec) -> (prev: Option<CommandSpec>)
        requires
            old(self).inv(),
            spec@.wf(),
        ensures
            final(self).inv(),
            final(self)@ == reg_step(old(self)@, spec@),
            match prev {
                Option::None => reg_lookup(old(self)@, spec@.name) is None,
                Option::Some(p) => reg_lookup(old(self)@, spec@.name) == Option::Some(p@),
            },
    {
        let ghost entries0 = self@;
        let ghost spm = spec@;
        let mut i: usize = 0;
        while i < self.entries.len()
            invariant
                i <= self.entries.len(),
                self@ == entries0,
                entries0 == old(self)@,
                old(self).inv(),
                spm == spec@,
                spm.wf(),
                forall|j: int| 0 <= j < i ==> (#[trigger] entries0[j]).name != spm.name,
            decreases self.entries.len() - i,
        {
            if self.entries[i].name == spec.name {
                proof {
                    lemma_reg_lookup_at(entries0, i as int);
                }
                let ghost mid0 = self.entries@;
                let prev = self.entries.remove(i);
                let ghost mid1 = self.entries@;
                self.entries.insert(i, spec);
                proof {
                    assert(mid1 == mid0.remove(i as int));
                    assert(self.entries@ == mid1.insert(i as int, spec));
                    assert(self.entries@ =~= mid0.update(i as int, spec));
                    assert(self@ =~= entries0.update(i as int, spm));
                    lemma_reg_step_prefix(entries0, spm, i as int);
                    assert(self@ =~= reg_step(entries0, spm));
                    lemma_inv_update(entries0, spm, i as int);
                }
                return Option::Some(prev);
            }
            i = i + 1;
        }
        self.entries.push(spec);
        proof {
            assert(self@ =~= entries0.push(spm));
            lemma_reg_step_append(entries0, spm);
            assert(self@ =~= reg_step(entries0, spm));
            lemma_reg_lookup_props(entries0, spm.name);
            match reg_lookup(entries0, spm.name) {
                Option::None => {},
                Option::Some(p) => {
                    let j = choose|j: int| 0 <= j < entries0.len() && entries0[j] == p;
                    assert(entries0[j].name == spm.name);
                    assert(false);
                },
            }
        }
        Option::None
    }

    /// The specification registered under `name`, if any: a pure read.
    pub fn lookup(&self, name: &String) -> (r: Option<&CommandSpec>)
        ensures
            match r {
                Option::Some(s) => reg_lookup(self@, name@) == Option::Some(s@),
                Option::None => reg_lookup(self@, name@) is None,
            },
    {
        let mut i: usize = 0;
        proof {
            assert(self@.skip(0) =~= self@);
        }
        while i < self.entries.len()
            invariant
                i <= self.entries.len(),
                reg_lookup(self@, name@) == reg_lookup(self@.skip(i as int), name@),
            decreases self.entries.len() - i,
        {
            proof {
                assert(self@.skip(i as int)[0] == self@[i as int]);
                assert(self@.skip(i as int).drop_first() =~= self@.skip(i as int + 1));
            }
            if self.entries[i].name == *name {
                return Option::Some(&self.entries[i]);
            }
            i = i + 1;
        }
        proof {
            assert(self@.skip(self@.len() as int) =~= Seq::<SpecModel>::empty());
        }
        Option::None
    }

    /// Whether a specification is registered under `name`.
    pub fn contains(&self, name: &String) -> (r: bool)
        ensures
            r == (reg_lookup(self@, name@) is Some),
    {
        match self.lookup(name) {
            Option::Some(_) => true,
            Option::None => false,
        }
    }

    /// The long-form help text registered under `name`, if any: a pure
    /// read over the registry.
    pub fn render_help(&self, name: &String) -> (r: Option<String>)
        ensures
            match r {
                Option::Some(h) => reg_lookup(self@, name@) matches Option::Some(s) && s.long_help
                    == h@,
                Option::None => reg_lookup(self@, name@) is None,
            },
    {
        match self.lookup(name) {
            Option::Some(s) => Option::Some(s.long_help.clone()),
            Option::None => Option::None,
        }
    }

    /// Every registered command's name and one-line summary, in registry
    /// order: a pure read used by help and listing code.
    pub fn list_commands(&self) -> (r: Vec<(String, String)>)
        ensures
            r.deep_view() =~= Seq::new(self@.len(), |i: int| (self@[i].name, self@[i].summary)),
    {
        let mut r: Vec<(String, String)> = Vec::new();
        let mut i: usize = 0;
        while i < self.entries.len()
            invariant
                i <= self.entries.len(),
                r.deep_view() =~= Seq::new(i as nat, |j: int| (self@[j].name, self@[j].summary)),
            decreases self.entries.len() - i,
        {
            let ghost prev = r.deep_view();
            r.push((self.entries[i].name.clone(), self.entries[i].summary.clone()));
            i = i + 1;
            proof {
                assert(r.deep_view() =~= prev.push(
                    (self@[i as int - 1].name, self@[i as int - 1].summary),
                ));
                assert(r.deep_view() =~= Seq::new(
                    i as nat,
                    |j: int| (self@[j].name, self@[j].summary),
                ));
            }
        }
        r
    }

    /// The registered names, in registry order.
    pub fn names(&self) -> (r: Vec<String>)
        ensures
            r.deep_view() =~= Seq::new(self@.len(), |i: int| self@[i].name),
    {
        let mut r: Vec<String> = Vec::new();
        let mut i: usize = 0;
        while i < self.entries.len()
            invariant
                i <= self.entries.len(),
                r.deep_view() =~= Seq::new(i as nat, |j: int| self@[j].name),
            decreases self.entries.len() - i,
        {
            let ghost prev = r.deep_view();
            r.push(self.entries[i].name.clone());
            i = i + 1;
            proof {
                assert(r.deep_view() =~= prev.push(self@[i as int - 1].name));
                assert(r.deep_view() =~= Seq::new(i as nat, |j: int| self@[j].name));
            }
        }
        r
    }
}

/// The first entry carrying its name is what lookup returns.
proof fn lemma_reg_lookup_at(entries: Seq<SpecModel>, k: int)
    requires
        0 <= k < entries.len(),
        forall|j: int| 0 <= j < k ==> (#[trigger] entries[j]).name != entries[k].name,
    ensures
        reg_lookup(entries, entries[k].name) == Option::Some(entries[k]),
    decreases k,
{
    if k > 0 {
        assert(entries.drop_first()[k - 1] == entries[k]);
        assert(forall|j: int|
            0 <= j < k - 1 ==> (#[trigger] entries.drop_first()[j]).name != entries[k].name) by {
            assert(forall|j: int|
                0 <= j < k - 1 ==> entries.drop_first()[j] == entries[j + 1]);
        }
        lemma_reg_lookup_at(entries.drop_first(), k - 1);
    }
}

/// Replacing the first entry carrying the name of `sp` is registration,
/// provided no earlier entry carries it.
proof fn lemma_reg_step_prefix(entries: Seq<SpecModel>, sp: SpecModel, k: int)
    requires
        0 <= k < entries.len(),
        entries[k].name == sp.name,
        forall|j: int| 0 <= j < k ==> (#[trigger] entries[j]).name != sp.name,
    ensures
        reg_step(entries, sp) =~= entries.update(k, sp),
    decreases k,
{
    if k == 0 {
        assert(reg_step(entries, sp) == seq![sp] + entries.drop_first());
        assert(seq![sp] + entries.drop_first() =~= entries.update(0, sp));
    } else {
        assert(entries[0].name != sp.name);
        assert(entries.drop_first()[k - 1] == entries[k]);
        lemma_reg_step_prefix(entries.drop_first(), sp, k - 1);
        assert(reg_step(entries, sp) == seq![entries[0]] + reg_step(entries.drop_first(), sp));
        assert(seq![entries[0]] + entries.drop_first().update(k - 1, sp) =~= entries.update(k, sp));
    }
}

/// Appending is registration when no entry carries the name of `sp`.
proof fn lemma_reg_step_append(entries: Seq<SpecModel>, sp: SpecModel)
    requires
        forall|j: int| 0 <= j < entries.len() ==> (#[trigger] entries[j]).name != sp.name,
    ensures
        reg_step(entries, sp) =~= entries.push(sp),
    decreases entries.len(),
{
    if entries.len() > 0 {
        assert(forall|j: int|
            0 <= j < entries.drop_first().len() ==> (#[trigger] entries.drop_first()[j]).name
                != sp.name) by {
            assert(forall|j: int|
                0 <= j < entries.drop_first().len() ==> entries.drop_first()[j] == entries[j + 1]);
        }
        lemma_reg_step_append(entries.drop_first(), sp);
        assert(seq![entries[0]] + entries.drop_first().push(sp) =~= entries.push(sp));
    }
}

/// Updating an entry in place with a well-formed specification of the same
/// name preserves the registry invariant.
proof fn lemma_inv_update(entries: Seq<SpecModel>, sp: SpecModel, k: int)
    requires
        0 <= k < entries.len(),
        entries[k].name == sp.name,
        sp.wf(),
        forall|i: int, j: int|
            0 <= i < j < entries.len() ==> (#[trigger] entries[i]).name != (
            #[trigger] entries[j]).name,
        forall|i: int| 0 <= i < entries.len() ==> (#[trigger] entries[i]).wf(),
    ensures
        forall|i: int, j: int|
            0 <= i < j < entries.update(k, sp).len() ==> (#[trigger] entries.update(k, sp)[i]).name
                != (#[trigger] entries.update(k, sp)[j]).name,
        forall|i: int| 0 <= i < entries.update(k, sp).len() ==> (#[trigger] entries.update(k, sp)[i]).wf(),
{
}

} // verus!
