use vstd::prelude::*;

use crate::brush::Brush;
use crate::style::TextStyle;

verus! {

/// A registry of styles by name.
///
/// Names are kept in `names` and the style of `names[i]` in `styles[i]`; no
/// name occurs twice.
pub struct StyleSet<B: Brush> {
    names: Vec<String>,
    styles: Vec<TextStyle<B>>,
}

impl<B: Brush> View for StyleSet<B> {
    type V = Map<Seq<char>, TextStyle<B>>;

    /// Each registered name, mapped to its style.
    closed spec fn view(&self) -> Map<Seq<char>, TextStyle<B>> {
        Map::new(
            |k: Seq<char>| exists|i: int| 0 <= i < self.names@.len() && #[trigger] self.names@[i]@ == k,
            |k: Seq<char>|
                self.styles@[choose|i: int| 0 <= i < self.names@.len() && #[trigger] self.names@[i]@ == k],
        )
    }
}

/// The registry after registering each pair of `regs` in order, starting from
/// an empty one.
pub open spec fn registered<B: Brush>(regs: Seq<(Seq<char>, TextStyle<B>)>) -> Map<
    Seq<char>,
    TextStyle<B>,
>
    decreases regs.len(),
{
    if regs.len() == 0 {
        Map::empty()
    } else {
        registered(regs.drop_last()).insert(regs.last().0, regs.last().1)
    }
}

impl<B: Brush> StyleSet<B> {
    /// The two vectors have one entry per name, and no name occurs twice.
    #[verifier::type_invariant]
    spec fn wf(&self) -> bool {
        &&& self.names@.len() == self.styles@.len()
        &&& forall|i: int, j: int|
            0 <= i < j < self.names@.len() ==> #[trigger] self.names@[i]@ != #[trigger] self.names@[j]@
    }

    /// An empty registry.
    pub fn new() -> (r: StyleSet<B>)
        ensures
            r@ == Map::<Seq<char>, TextStyle<B>>::empty(),
    {
        let r = StyleSet { names: Vec::new(), styles: Vec::new() };
        assert(r@ =~= Map::<Seq<char>, TextStyle<B>>::empty());
        r
    }

    /// The position of `name`, if it is registered.
    fn find(&self, name: &String) -> (r: Option<usize>)
        ensures
            match r {
                Some(i) => i < self.names@.len() && self.names@[i as int]@ == name@,
                None => forall|j: int| 0 <= j < self.names@.len() ==> self.names@[j]@ != name@,
            },
    {
        proof {
            use_type_invariant(self);
        }
        let mut i: usize = 0;
        while i < self.names.len()
            invariant
                i <= self.names@.len(),
                forall|j: int| 0 <= j < i ==> self.names@[j]@ != name@,
            decreases self.names@.len() - i,
        {
            if self.names[i] == *name {
                return Some(i);
            }
            i = i + 1;
        }
        None
    }

    /// Registers `style` under `name`, replacing the style that was
    /// registered under it before, which is returned.
    pub fn insert(&mut self, name: &str, style: TextStyle<B>) -> (r: Option<TextStyle<B>>)
        ensures
            final(self)@ == old(self)@.insert(name@, style),
            r == (if old(self)@.contains_key(name@) {
                Some(old(self)@[name@])
            } else {
                None
            }),
    {
        proof {
            use_type_invariant(&*self);
        }
        let ghost before = self@;
        let key = String::from_str(name);
        let found = self.find(&key);
        let mut taken = StyleSet { names: Vec::new(), styles: Vec::new() };
        core::mem::swap(self, &mut taken);
        let StyleSet { mut names, mut styles } = taken;
        match found {
            Some(i) => {
                let mut previous = style;
                core::mem::swap(&mut styles[i], &mut previous);
                *self = StyleSet { names, styles };
                assert(before.contains_key(name@));
                assert(previous == before[name@]);
                assert(self@ =~= before.insert(name@, style)) by {
                    assert forall|k: Seq<char>| #[trigger] self@.contains_key(k) implies self@[k]
                        == before.insert(name@, style)[k] by {
                        if k != name@ {
                            let j = choose|j: int|
                                0 <= j < self.names@.len() && #[trigger] self.names@[j]@ == k;
                            assert(j != i);
                        }
                    }
                }
                Some(previous)
            },
            None => {
                names.push(key);
                styles.push(style);
                *self = StyleSet { names, styles };
                assert(!before.contains_key(name@));
                assert(self@ =~= before.insert(name@, style)) by {
                    assert forall|k: Seq<char>| #[trigger] self@.contains_key(k) == before.insert(
                        name@,
                        style,
                    ).contains_key(k) by {
                        if k == name@ {
                            assert(self.names@[self.names@.len() - 1]@ == k);
                        }
                        if k != name@ && self@.contains_key(k) {
                            let j = choose|j: int|
                                0 <= j < self.names@.len() && #[trigger] self.names@[j]@ == k;
                            assert(j < self.names@.len() - 1);
                        }
                        if before.contains_key(k) {
                            let j = choose|j: int|
                                0 <= j < old(self).names@.len() && #[trigger] old(self).names@[j]@
                                    == k;
                            assert(self.names@[j]@ == k);
                        }
                    }
                    assert forall|k: Seq<char>| #[trigger] self@.contains_key(k) implies self@[k]
                        == before.insert(name@, style)[k] by {
                        if k != name@ {
                            let j = choose|j: int|
                                0 <= j < self.names@.len() && #[trigger] self.names@[j]@ == k;
                            assert(j < self.names@.len() - 1);
                        } else {
                            assert(self.names@[self.names@.len() - 1]@ == k);
                        }
                    }
                }
                None
            },
        }
    }

    /// The style registered under `name`, or `None` where none is.
    pub fn get(&self, name: &str) -> (r: Option<&TextStyle<B>>)
        ensures
            match r {
                Some(t) => self@.contains_key(name@) && *t == self@[name@],
                None => !self@.contains_key(name@),
            },
    {
        proof {
            use_type_invariant(self);
        }
        let key = String::from_str(name);
        match self.find(&key) {
            Some(i) => Some(&self.styles[i]),
            None => None,
        }
    }
}

/// Registering a name a second time replaces the style registered under it:
/// nothing of the first registration remains.
pub proof fn lemma_register_twice_replaces<B: Brush>(
    m: Map<Seq<char>, TextStyle<B>>,
    name: Seq<char>,
    first: TextStyle<B>,
    second: TextStyle<B>,
)
    ensures
        m.insert(name, first).insert(name, second) == m.insert(name, second),
{
    assert(m.insert(name, first).insert(name, second) =~= m.insert(name, second));
}

/// One more registration adds its pair to the registry as `insert` does.
pub proof fn lemma_registered_push<B: Brush>(
    regs: Seq<(Seq<char>, TextStyle<B>)>,
    name: Seq<char>,
    style: TextStyle<B>,
)
    ensures
        registered(regs.push((name, style))) == registered(regs).insert(name, style),
{
    assert(regs.push((name, style)).drop_last() =~= regs);
}

/// A name that no registration used is absent from the registry.
pub proof fn lemma_unregistered_absent<B: Brush>(
    regs: Seq<(Seq<char>, TextStyle<B>)>,
    name: Seq<char>,
)
    requires
        forall|i: int| 0 <= i < regs.len() ==> (#[trigger] regs[i]).0 != name,
    ensures
        !registered(regs).contains_key(name),
    decreases regs.len(),
{
    if regs.len() > 0 {
        assert forall|i: int| 0 <= i < regs.drop_last().len() implies (#[trigger] regs.drop_last()[i]).0
            != name by {
            assert(regs.drop_last()[i] == regs[i]);
        }
        lemma_unregistered_absent(regs.drop_last(), name);
        assert(regs.last() == regs[regs.len() - 1]);
    }
}

} // verus!
