//! The set of symbols that the connector follows.

use crate::text::{lex_less, lex_less_is_total, lex_less_is_transitive, text_eq, text_less};
use vstd::prelude::*;

verus! {

/// The texts stand in order, each once.
pub open spec fn in_order(symbols: Seq<Seq<char>>) -> bool {
    forall|i: int, j: int|
        #![trigger symbols[i], symbols[j]]
        0 <= i < j < symbols.len() ==> lex_less(symbols[i], symbols[j])
}

/// A set of symbols, kept in the order of their names.
#[derive(Debug)]
pub struct SymbolSet {
    symbols: Vec<String>,
}

impl View for SymbolSet {
    type V = Seq<Seq<char>>;

    closed spec fn view(&self) -> Seq<Seq<char>> {
        self.symbols.deep_view()
    }
}

impl SymbolSet {
    #[verifier::type_invariant]
    closed spec fn ordered(self) -> bool {
        in_order(self.symbols.deep_view())
    }

    /// The empty set.
    pub fn new() -> (r: Self)
        ensures
            r@ == Seq::<Seq<char>>::empty(),
    {
        let symbols: Vec<String> = Vec::new();
        assert(symbols.deep_view() =~= Seq::<Seq<char>>::empty());
        SymbolSet { symbols }
    }

    /// How many symbols there are.
    pub fn len(&self) -> (r: usize)
        ensures
            r == self@.len(),
            in_order(self@),
    {
        proof {
            use_type_invariant(self);
        }
        self.symbols.len()
    }

    /// The symbol at a place in the order.
    pub fn symbol(&self, i: usize) -> (r: &String)
        requires
            i < self@.len(),
        ensures
            r@ == self@[i as int],
    {
        &self.symbols[i]
    }

    /// Whether a symbol belongs to the set.
    pub fn contains(&self, symbol: &str) -> (r: bool)
        ensures
            r == self@.contains(symbol@),
    {
        let mut i: usize = 0;
        while i < self.symbols.len()
            invariant
                i <= self.symbols.len(),
                forall|j: int| 0 <= j < i ==> #[trigger] self@[j] != symbol@,
            decreases self.symbols.len() - i,
        {
            assert(self@[i as int] == self.symbols@[i as int]@);
            if text_eq(self.symbols[i].as_str(), symbol) {
                return true;
            }
            i = i + 1;
        }
        false
    }

    /// Adds a symbol, and tells whether it is new.
    pub fn insert(&mut self, symbol: String) -> (r: bool)
        ensures
            r == !old(self)@.contains(symbol@),
            r ==> final(self)@.to_set() == old(self)@.to_set().insert(symbol@),
            r ==> final(self)@.len() == old(self)@.len() + 1,
            !r ==> final(self)@ == old(self)@,
            in_order(final(self)@),
    {
        proof {
            use_type_invariant(&*self);
        }
        let ghost before = self@;
        let mut i: usize = 0;
        while i < self.symbols.len() && text_less(self.symbols[i].as_str(), symbol.as_str())
            invariant
                before == self@,
                in_order(before),
                i <= self.symbols.len(),
                forall|j: int| 0 <= j < i ==> lex_less(#[trigger] before[j], symbol@),
            decreases self.symbols.len() - i,
        {
            i = i + 1;
        }
        if i < self.symbols.len() {
            assert(before[i as int] == self.symbols@[i as int]@);
            if text_eq(self.symbols[i].as_str(), symbol.as_str()) {
                return false;
            }
        }
        let mut symbols: Vec<String> = Vec::new();
        core::mem::swap(&mut symbols, &mut self.symbols);
        symbols.insert(i, symbol);
        proof {
            let after = symbols.deep_view();
            assert(after =~= before.insert(i as int, symbol@));
            lemma_inserted(before, i as int, symbol@);
        }
        self.symbols = symbols;
        true
    }
}

proof fn lemma_inserted(before: Seq<Seq<char>>, i: int, symbol: Seq<char>)
    requires
        in_order(before),
        0 <= i <= before.len(),
        forall|j: int| 0 <= j < i ==> lex_less(#[trigger] before[j], symbol),
        i < before.len() ==> !lex_less(before[i], symbol) && before[i] != symbol,
    ensures
        in_order(before.insert(i, symbol)),
        !before.contains(symbol),
        before.insert(i, symbol).to_set() == before.to_set().insert(symbol),
{
    let after = before.insert(i, symbol);
    assert forall|j: int| i <= j < before.len() implies lex_less(symbol, #[trigger] before[j]) by {
        lex_less_is_total(symbol, before[i]);
        if i < j {
            assert(lex_less(before[i], before[j]));
            lex_less_is_transitive(symbol, before[i], before[j]);
        }
    }
    assert forall|j: int| 0 <= j < before.len() implies #[trigger] before[j] != symbol by {
        lex_less_is_total(symbol, symbol);
        if j < i {
            assert(lex_less(before[j], symbol));
        } else {
            assert(lex_less(symbol, before[j]));
        }
    }
    assert forall|a: int, b: int|
        #![trigger after[a], after[b]]
        0 <= a < b < after.len() implies lex_less(after[a], after[b]) by {
        let x = if a < i { a } else { a - 1 };
        let y = if b < i { b } else { b - 1 };
        if a == i {
            assert(after[b] == before[y]);
        } else if b == i {
            assert(after[a] == before[x]);
        } else {
            assert(after[a] == before[x] && after[b] == before[y]);
        }
    }
    assert forall|s: Seq<char>| #[trigger] after.to_set().contains(s) <==> before.to_set().insert(
        symbol,
    ).contains(s) by {
        if before.contains(s) {
            let j = choose|j: int| 0 <= j < before.len() && before[j] == s;
            assert(after[if j < i { j } else { j + 1 }] == s);
        }
        if s == symbol {
            assert(after[i] == s);
        }
        if after.contains(s) && s != symbol {
            let j = choose|j: int| 0 <= j < after.len() && after[j] == s;
            assert(before[if j < i { j } else { j - 1 }] == s);
        }
    }
    assert(after.to_set() =~= before.to_set().insert(symbol));
}

/// A set of symbols has only one list in order.
pub proof fn ordered_lists_are_unique(a: Seq<Seq<char>>, b: Seq<Seq<char>>)
    requires
        in_order(a),
        in_order(b),
        forall|symbol: Seq<char>| #[trigger] a.contains(symbol) <==> b.contains(symbol),
    ensures
        a == b,
    decreases a.len(),
{
    if a.len() == 0 {
        if b.len() > 0 {
            assert(b.contains(b[0]));
            assert(a.contains(b[0]));
        }
        assert(a =~= b);
    } else {
        assert(a.contains(a.last()));
        assert(b.contains(a.last()));
        assert(b.contains(b.last()));
        assert(a.contains(b.last()));
        let i = choose|i: int| 0 <= i < b.len() && b[i] == a.last();
        let j = choose|j: int| 0 <= j < a.len() && a[j] == b.last();
        lex_less_is_total(a.last(), b.last());
        if i < b.len() - 1 {
            assert(lex_less(b[i], b[b.len() - 1]));
        }
        if j < a.len() - 1 {
            assert(lex_less(a[j], a[a.len() - 1]));
        }
        assert(a.last() == b.last());
        let front = a.drop_last();
        let other = b.drop_last();
        lemma_front(a);
        lemma_front(b);
        ordered_lists_are_unique(front, other);
        assert(a =~= front.push(a.last()));
        assert(b =~= other.push(b.last()));
    }
}

/// A list in order without its last symbol is in order, and holds every other symbol.
proof fn lemma_front(a: Seq<Seq<char>>)
    requires
        in_order(a),
        a.len() > 0,
    ensures
        in_order(a.drop_last()),
        forall|symbol: Seq<char>| #[trigger]
            a.drop_last().contains(symbol) <==> a.contains(symbol) && symbol != a.last(),
{
    let front = a.drop_last();
    assert forall|i: int, j: int|
        #![trigger front[i], front[j]]
        0 <= i < j < front.len() implies lex_less(front[i], front[j]) by {
        assert(front[i] == a[i] && front[j] == a[j]);
    }
    assert forall|symbol: Seq<char>| #[trigger] front.contains(symbol) <==> a.contains(symbol)
        && symbol != a.last() by {
        if front.contains(symbol) {
            let i = choose|i: int| 0 <= i < front.len() && front[i] == symbol;
            assert(a[i] == symbol);
            lex_less_is_total(symbol, a.last());
            assert(lex_less(a[i], a[a.len() - 1]));
        }
        if a.contains(symbol) && symbol != a.last() {
            let i = choose|i: int| 0 <= i < a.len() && a[i] == symbol;
            assert(front[i] == symbol);
        }
    }
}

/// A list in order with one more symbol can be put in order again.
pub proof fn one_more_symbol(a: Seq<Seq<char>>, symbol: Seq<char>) -> (b: Seq<Seq<char>>)
    requires
        in_order(a),
    ensures
        in_order(b),
        forall|s: Seq<char>| #[trigger] b.contains(s) <==> a.contains(s) || s == symbol,
{
    if a.contains(symbol) {
        a
    } else {
        let i = lemma_place(a, symbol, 0);
        lemma_inserted(a, i, symbol);
        let b = a.insert(i, symbol);
        assert forall|s: Seq<char>| #[trigger] b.contains(s) <==> a.contains(s) || s == symbol by {
            assert(b.to_set().contains(s) == b.contains(s));
            assert(a.to_set().contains(s) == a.contains(s));
        }
        b
    }
}

/// Where a symbol belongs among those from `i` on.
proof fn lemma_place(a: Seq<Seq<char>>, symbol: Seq<char>, i: int) -> (place: int)
    requires
        in_order(a),
        !a.contains(symbol),
        0 <= i <= a.len(),
        forall|j: int| 0 <= j < i ==> lex_less(#[trigger] a[j], symbol),
    ensures
        0 <= place <= a.len(),
        forall|j: int| 0 <= j < place ==> lex_less(#[trigger] a[j], symbol),
        place < a.len() ==> !lex_less(a[place], symbol) && a[place] != symbol,
    decreases a.len() - i,
{
    if i < a.len() && lex_less(a[i], symbol) {
        lemma_place(a, symbol, i + 1)
    } else {
        i
    }
}

} // verus!
