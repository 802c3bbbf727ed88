use vstd::arithmetic::div_mod::lemma_add_mod_noop;
use vstd::prelude::*;
use vstd::string::*;

verus! {

/// How many completions are offered at most.
pub const MAX_VARIANTS: usize = 5;

/// The completions offered for a path that is being typed, and the one that
/// is marked among them.
#[derive(Debug, PartialEq)]
pub struct PathHintState {
    pub possible_paths: Vec<String>,
    selected: usize,
}

/// Mathematical value of a [`PathHintState`].
pub struct PathHintView {
    pub possible_paths: Seq<Seq<char>>,
    pub selected: nat,
}

/// The texts of a list of names.
pub open spec fn texts(names: Seq<String>) -> Seq<Seq<char>> {
    names.map_values(|name: String| name@)
}

/// The first `limit` of `entries` that begin with `prefix`, in their order.
pub open spec fn hints(entries: Seq<Seq<char>>, prefix: Seq<char>, limit: nat) -> Seq<Seq<char>>
    decreases entries.len(),
{
    if entries.len() == 0 || limit == 0 {
        Seq::empty()
    } else if prefix.is_prefix_of(entries.first()) {
        seq![entries.first()] + hints(entries.drop_first(), prefix, (limit - 1) as nat)
    } else {
        hints(entries.drop_first(), prefix, limit)
    }
}

/// No more hints are offered than the limit allows, and each of them is one
/// of the entries and begins with the prefix.
pub proof fn lemma_hints_bounded(entries: Seq<Seq<char>>, prefix: Seq<char>, limit: nat)
    ensures
        hints(entries, prefix, limit).len() <= limit,
        hints(entries, prefix, limit).len() <= entries.len(),
        forall|i: int|
            0 <= i < hints(entries, prefix, limit).len() ==> prefix.is_prefix_of(
                #[trigger] hints(entries, prefix, limit)[i],
            ) && entries.contains(hints(entries, prefix, limit)[i]),
    decreases entries.len(),
{
    if entries.len() > 0 && limit > 0 {
        let rest = entries.drop_first();
        if prefix.is_prefix_of(entries.first()) {
            lemma_hints_bounded(rest, prefix, (limit - 1) as nat);
            let tail = hints(rest, prefix, (limit - 1) as nat);
            assert forall|i: int| 0 <= i < hints(entries, prefix, limit).len() implies prefix.is_prefix_of(
                #[trigger] hints(entries, prefix, limit)[i],
            ) && entries.contains(hints(entries, prefix, limit)[i]) by {
                if i == 0 {
                    assert(entries[0] == entries.first());
                } else {
                    assert(hints(entries, prefix, limit)[i] == tail[i - 1]);
                    let j = choose|j: int| 0 <= j < rest.len() && rest[j] == tail[i - 1];
                    assert(entries[j + 1] == tail[i - 1]);
                }
            }
        } else {
            lemma_hints_bounded(rest, prefix, limit);
            let tail = hints(rest, prefix, limit);
            assert forall|i: int| 0 <= i < hints(entries, prefix, limit).len() implies prefix.is_prefix_of(
                #[trigger] hints(entries, prefix, limit)[i],
            ) && entries.contains(hints(entries, prefix, limit)[i]) by {
                let j = choose|j: int| 0 <= j < rest.len() && rest[j] == tail[i];
                assert(entries[j + 1] == tail[i]);
            }
        }
    }
}

/// Whether `text` begins with `prefix`.
pub fn starts_with(text: &str, prefix: &str) -> (b: bool)
    ensures
        b == prefix@.is_prefix_of(text@),
{
    let n: usize = prefix.unicode_len();
    let m: usize = text.unicode_len();
    if n > m {
        return false;
    }
    let mut i: usize = 0;
    while i < n
        invariant
            i <= n <= m,
            n == prefix@.len(),
            m == text@.len(),
            forall|k: int| 0 <= k < i ==> prefix@[k] == text@[k],
        decreases n - i,
    {
        if prefix.get_char(i) != text.get_char(i) {
            assert(text@.subrange(0, n as int)[i as int] != prefix@[i as int]);
            return false;
        }
        i = i + 1;
    }
    assert(text@.subrange(0, n as int) =~= prefix@);
    true
}

impl View for PathHintState {
    type V = PathHintView;

    closed spec fn view(&self) -> PathHintView {
        PathHintView { possible_paths: texts(self.possible_paths@), selected: self.selected as nat }
    }
}

impl Default for PathHintState {
    fn default() -> (state: PathHintState)
        ensures
            state@ == (PathHintView { possible_paths: Seq::empty(), selected: 0 }),
    {
        let state = PathHintState { possible_paths: Vec::with_capacity(MAX_VARIANTS), selected: 0 };
        assert(texts(state.possible_paths@) =~= Seq::empty());
        state
    }
}

impl PathHintState {
    /// Replaces the completions by the first [`MAX_VARIANTS`] of `entries`
    /// that begin with `prefix`, and marks the first of them.
    pub fn get_hints(&mut self, entries: &Vec<String>, prefix: &str)
        ensures
            final(self)@ == (PathHintView {
                possible_paths: hints(texts(entries@), prefix@, MAX_VARIANTS as nat),
                selected: 0,
            }),
    {
        self.possible_paths.clear();
        self.selected = 0;
        let ghost all = texts(entries@);
        let mut i: usize = 0;
        assert(all.skip(0) =~= all);
        assert(texts(self.possible_paths@) =~= Seq::empty());
        while i < entries.len() && self.possible_paths.len() < MAX_VARIANTS
            invariant
                i <= entries.len(),
                all == texts(entries@),
                self.selected == 0,
                self.possible_paths@.len() <= MAX_VARIANTS,
                texts(self.possible_paths@) + hints(
                    all.skip(i as int),
                    prefix@,
                    (MAX_VARIANTS - self.possible_paths@.len()) as nat,
                ) == hints(all, prefix@, MAX_VARIANTS as nat),
            decreases entries.len() - i,
        {
            let ghost before = texts(self.possible_paths@);
            let ghost rest = all.skip(i as int);
            assert(rest.first() == entries@[i as int]@);
            assert(rest.drop_first() =~= all.skip(i + 1));
            if starts_with(entries[i].as_str(), prefix) {
                self.possible_paths.push(entries[i].clone());
                assert(texts(self.possible_paths@) =~= before + seq![rest.first()]);
                assert(texts(self.possible_paths@) + hints(
                    all.skip(i + 1),
                    prefix@,
                    (MAX_VARIANTS - self.possible_paths@.len()) as nat,
                ) =~= before + (seq![rest.first()] + hints(
                    rest.drop_first(),
                    prefix@,
                    (MAX_VARIANTS - before.len() - 1) as nat,
                )));
            }
            i = i + 1;
        }
        proof {
            let left = (MAX_VARIANTS - self.possible_paths@.len()) as nat;
            assert(hints(all.skip(i as int), prefix@, left) =~= Seq::empty());
            assert(texts(self.possible_paths@) + Seq::<Seq<char>>::empty() =~= texts(
                self.possible_paths@,
            ));
        }
    }

    /// Where the mark stands among the completions.
    pub fn selected(&self) -> (index: usize)
        ensures
            index == self@.selected,
    {
        self.selected
    }

    /// The completion that is marked, if there is one at the mark.
    pub fn get_selected(&self) -> (path: Option<&String>)
        ensures
            match path {
                Some(p) => self@.selected < self@.possible_paths.len()
                    && p@ == self@.possible_paths[self@.selected as int],
                None => self@.selected >= self@.possible_paths.len(),
            },
    {
        if self.selected < self.possible_paths.len() {
            Some(&self.possible_paths[self.selected])
        } else {
            None
        }
    }

    /// Moves the mark to the next completion, from the last one to the first.
    /// Without completions nothing changes.
    pub fn next(&mut self)
        ensures
            final(self)@.possible_paths == old(self)@.possible_paths,
            old(self)@.possible_paths.len() == 0 ==> final(self)@ == old(self)@,
            old(self)@.possible_paths.len() > 0 ==> final(self)@.selected == (old(self)@.selected
                + 1) % old(self)@.possible_paths.len(),
    {
        let len: usize = self.possible_paths.len();
        if len == 0 {
            return ;
        }
        proof {
            lemma_add_mod_noop(self.selected as int, 1, len as int);
            if len == 1 {
                assert(1int % 1 == 0);
            } else {
                assert(1int % (len as int) == 1) by (nonlinear_arith)
                    requires
                        len > 1,
                ;
            }
        }
        let at: usize = self.selected % len;
        self.selected = (at + 1) % len;
    }

    /// Moves the mark to the completion before, from the first one to the
    /// last. Without completions nothing changes.
    pub fn previous(&mut self)
        ensures
            final(self)@.possible_paths == old(self)@.possible_paths,
            old(self)@.possible_paths.len() == 0 ==> final(self)@ == old(self)@,
            old(self)@.possible_paths.len() > 0 ==> final(self)@.selected == if old(
                self,
            )@.selected == 0 {
                old(self)@.possible_paths.len() - 1
            } else {
                old(self)@.selected - 1
            },
    {
        if self.possible_paths.len() == 0 {
            return ;
        }
        if self.selected == 0 {
            self.selected = self.possible_paths.len() - 1;
            return ;
        }
        self.selected = self.selected - 1;
    }
}

} // verus!
