//! A list of emoji.

use vstd::prelude::*;

verus! {

/// Represents a list of emoji.
#[derive(Debug)]
pub struct Emojis {
    /// List of emojis
    pub emojis: Vec<String>,
}

/// The texts held by a list of strings.
pub open spec fn texts(s: Seq<String>) -> Seq<Seq<char>> {
    Seq::new(s.len(), |i: int| s[i]@)
}

impl View for Emojis {
    type V = Seq<Seq<char>>;

    open spec fn view(&self) -> Seq<Seq<char>> {
        texts(self.emojis@)
    }
}

impl Emojis {
    /// The values of a sequence of emoji lists, item by item.
    pub open spec fn views(s: Seq<Emojis>) -> Seq<Seq<Seq<char>>> {
        Seq::new(s.len(), |i: int| s[i]@)
    }

    /// Copies a list of emoji lists.
    pub fn clone_all(v: &Vec<Emojis>) -> (r: Vec<Emojis>)
        ensures
            Self::views(r@) == Self::views(v@),
    {
        let mut r: Vec<Emojis> = Vec::new();
        let mut i: usize = 0;
        while i < v.len()
            invariant
                i <= v.len(),
                r@.len() == i,
                forall|j: int| 0 <= j < i ==> r@[j]@ == v@[j]@,
            decreases v.len() - i,
        {
            r.push(v[i].clone());
            i += 1;
        }
        assert(Self::views(r@) =~= Self::views(v@));
        r
    }
}

impl Default for Emojis {
    fn default() -> (r: Self)
        ensures
            r@ == Seq::<Seq<char>>::empty(),
    {
        let r = Emojis { emojis: Vec::new() };
        assert(r@ =~= Seq::<Seq<char>>::empty());
        r
    }
}

impl Clone for Emojis {
    fn clone(&self) -> (r: Self)
        ensures
            r@ == self@,
    {
        let emojis = self.emojis.clone();
        assert(texts(emojis@) =~= texts(self.emojis@));
        Emojis { emojis }
    }
}

} // verus!
