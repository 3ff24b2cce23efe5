//! The name each Rust item publishes under in a target language, registered as items are read and
//! looked up whenever a later declaration refers to one of them.

use vstd::prelude::*;

verus! {

/// The name registered last for `key` among the first `n` entries, if any.
pub open spec fn last_named(
    entries: Seq<(Seq<char>, Seq<char>)>,
    key: Seq<char>,
    n: nat,
) -> Option<Seq<char>>
    recommends
        n <= entries.len(),
    decreases n,
{
    if n == 0 {
        Option::None
    } else if entries[n - 1].0 == key {
        Option::Some(entries[n - 1].1)
    } else {
        last_named(entries, key, (n - 1) as nat)
    }
}

/// Every Rust ident registered so far and the name it publishes under, oldest first; a later
/// registration for the same ident takes its place.
pub struct NameRegistry {
    entries: Vec<(String, String)>,
}

impl View for NameRegistry {
    type V = Seq<(Seq<char>, Seq<char>)>;

    closed spec fn view(&self) -> Seq<(Seq<char>, Seq<char>)> {
        self.entries.deep_view()
    }
}

impl NameRegistry {
    /// The name registered for `key`, if any.
    pub open spec fn get(self, key: Seq<char>) -> Option<Seq<char>> {
        last_named(self@, key, self@.len())
    }

    pub fn new() -> (r: NameRegistry)
        ensures
            r@ == Seq::<(Seq<char>, Seq<char>)>::empty(),
    {
        NameRegistry { entries: Vec::new() }
    }

    /// Records that `rust_ident` publishes under `export_name`.
    pub fn register(&mut self, rust_ident: &str, export_name: &str)
        ensures
            final(self)@ == old(self)@.push((rust_ident@, export_name@)),
    {
        let ghost before = self.entries.deep_view();
        self.entries.push((String::from_str(rust_ident), String::from_str(export_name)));
        assert(self.entries.deep_view() =~= before.push((rust_ident@, export_name@)));
    }

    /// The name registered for `rust_ident`, or `None` for an ident nothing registered.
    pub fn lookup(&self, rust_ident: &str) -> (r: Option<String>)
        ensures
            match r {
                Option::Some(s) => self.get(rust_ident@) == Option::Some(s@),
                Option::None => self.get(rust_ident@) == Option::<Seq<char>>::None,
            },
    {
        let ghost all = self.entries.deep_view();
        let key = String::from_str(rust_ident);
        let mut i: usize = self.entries.len();
        while i > 0
            invariant
                i <= self.entries.len(),
                all == self.entries.deep_view(),
                all.len() == self.entries.len(),
                key@ == rust_ident@,
                last_named(all, rust_ident@, all.len()) == last_named(all, rust_ident@, i as nat),
            decreases i,
        {
            assert(all[i - 1] == (self.entries[i - 1].0@, self.entries[i - 1].1@));
            if self.entries[i - 1].0 == key {
                return Option::Some(self.entries[i - 1].1.clone());
            }
            i = i - 1;
        }
        Option::None
    }
}

/// Registering `rust_ident` makes a lookup of it answer `export_name`, and leaves the answer for
/// every other ident as it was.
pub proof fn lemma_register_then_lookup(
    before: Seq<(Seq<char>, Seq<char>)>,
    rust_ident: Seq<char>,
    export_name: Seq<char>,
    other: Seq<char>,
)
    ensures
        last_named(before.push((rust_ident, export_name)), rust_ident, before.len() + 1)
            == Option::Some(export_name),
        other != rust_ident ==> last_named(
            before.push((rust_ident, export_name)),
            other,
            before.len() + 1,
        ) == last_named(before, other, before.len()),
{
    let after = before.push((rust_ident, export_name));
    assert(after[before.len() as int] == (rust_ident, export_name));
    if other != rust_ident {
        lemma_prefix_lookup(before, after, other, before.len());
    }
}

proof fn lemma_prefix_lookup(
    shorter: Seq<(Seq<char>, Seq<char>)>,
    longer: Seq<(Seq<char>, Seq<char>)>,
    key: Seq<char>,
    n: nat,
)
    requires
        n <= shorter.len(),
        shorter.len() <= longer.len(),
        forall|i: int| 0 <= i < shorter.len() ==> longer[i] == shorter[i],
    ensures
        last_named(longer, key, n) == last_named(shorter, key, n),
    decreases n,
{
    if n > 0 {
        lemma_prefix_lookup(shorter, longer, key, (n - 1) as nat);
    }
}

} // verus!
