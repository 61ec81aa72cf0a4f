use vstd::pervasive::VecAdditionalExecFns;
use vstd::prelude::*;

verus! {

/// The lowercase equivalent of a string, as Unicode case mapping gives it.
pub uninterp spec fn lower_of(s: Seq<char>) -> Seq<char>;

/// Relies on str::to_lowercase: the lowercase equivalent of the string,
/// a function of its characters alone.
#[verifier::external_body]
fn lowercase(s: &str) -> (r: String)
    ensures
        r@ == lower_of(s@),
{
    s.to_lowercase()
}

/// `text` with every case-insensitive occurrence of the literal `phrase`
/// replaced by `replacement`; a function of the three strings alone.
pub uninterp spec fn replace_ci(text: Seq<char>, phrase: Seq<char>, replacement: Seq<char>) -> Seq<
    char,
>;

/// Relies on regex::escape, regex::RegexBuilder::case_insensitive/build and
/// Regex::replace_all: the phrase is escaped so it matches as a literal,
/// compiled case-insensitively, and every match is replaced. Should the
/// escaped literal still fail to compile (a pattern size limit), the text
/// comes back unchanged — the same inputs always take the same path, so
/// the result stays a function of the arguments.
#[verifier::external_body]
fn replace_case_insensitive(text: &str, phrase: &str, replacement: &str) -> (r: String)
    ensures
        r@ == replace_ci(text@, phrase@, replacement@),
{
    let built = regex::RegexBuilder::new(&regex::escape(phrase)).case_insensitive(true).build();
    match built {
        Ok(re) => re.replace_all(text, replacement).into_owned(),
        Err(_) => text.to_owned(),
    }
}

/// A user-authored mapping from lowercase spoken phrase to replacement
/// text: the entries are kept in insertion order with unique keys, and
/// every key is stored lowercased.
pub struct KeywordMap {
    entries: Vec<(String, String)>,
}

impl View for KeywordMap {
    type V = Seq<(Seq<char>, Seq<char>)>;

    closed spec fn view(&self) -> Seq<(Seq<char>, Seq<char>)> {
        self.entries@.map_values(|p: (String, String)| (p.0@, p.1@))
    }
}

/// Whether `m` has an entry for the key `k`.
pub open spec fn has_key(m: Seq<(Seq<char>, Seq<char>)>, k: Seq<char>) -> bool {
    exists|i: int| 0 <= i < m.len() && m[i].0 == k
}

impl KeywordMap {
    /// Keys are pairwise distinct.
    pub open spec fn wf(&self) -> bool {
        forall|i: int, j: int|
            0 <= i < j < self@.len() ==> (#[trigger] self@[i].0) != (#[trigger] self@[j].0)
    }

    /// An empty mapping.
    pub fn new() -> (r: Self)
        ensures
            r@ == Seq::<(Seq<char>, Seq<char>)>::empty(),
            r.wf(),
    {
        let r = KeywordMap { entries: Vec::new() };
        proof {
            assert(r@ =~= Seq::<(Seq<char>, Seq<char>)>::empty());
        }
        r
    }

    /// How many entries the mapping holds.
    pub fn len(&self) -> (r: usize)
        ensures
            r == self@.len(),
    {
        self.entries.len()
    }

    /// Whether the mapping holds no entry.
    pub fn is_empty(&self) -> (r: bool)
        ensures
            r == (self@.len() == 0),
    {
        self.entries.len() == 0
    }

    /// The spoken phrase of the entry at `i`.
    pub fn spoken_at(&self, i: usize) -> (r: &String)
        requires
            i < self@.len(),
        ensures
            r@ == self@[i as int].0,
    {
        &self.entries[i].0
    }

    /// The replacement text of the entry at `i`.
    pub fn replacement_at(&self, i: usize) -> (r: &String)
        requires
            i < self@.len(),
        ensures
            r@ == self@[i as int].1,
    {
        &self.entries[i].1
    }

    fn find_key(&self, key: &String) -> (r: Option<usize>)
        ensures
            r matches Some(i) ==> i < self@.len() && self@[i as int].0 == key@,
            r is None ==> !has_key(self@, key@),
    {
        let mut i: usize = 0;
        while i < self.entries.len()
            invariant
                i <= self@.len(),
                self@.len() == self.entries@.len(),
                forall|k: int| 0 <= k < i ==> (#[trigger] self@[k].0) != key@,
            decreases self@.len() - i,
        {
            let entry = &self.entries[i];
            if entry.0 == *key {
                return Some(i);
            }
            i = i + 1;
        }
        None
    }

    /// Binds the phrase, lowercased, to `replacement`: an existing entry
    /// for that key is overwritten in place, otherwise a new entry is
    /// appended. Other entries are untouched.
    pub fn insert(&mut self, spoken: &String, replacement: String)
        requires
            old(self).wf(),
        ensures
            final(self).wf(),
            has_key(old(self)@, lower_of(spoken@)) ==> exists|i: int|
                0 <= i < old(self)@.len() && old(self)@[i].0 == lower_of(spoken@) && final(self)@ == old(self)@.update(
                    i,
                    (lower_of(spoken@), replacement@),
                ),
            !has_key(old(self)@, lower_of(spoken@)) ==> final(self)@ == old(self)@.push(
                (lower_of(spoken@), replacement@),
            ),
    {
        let key = lowercase(spoken.as_str());
        let ghost oldv = self@;
        match self.find_key(&key) {
            Some(i) => {
                self.entries.set(i, (key, replacement));
                proof {
                    assert(self@ =~= oldv.update(i as int, (lower_of(spoken@), replacement@)));
                    assert forall|a: int, b: int| 0 <= a < b < self@.len() implies self@[a].0
                        != self@[b].0 by {
                        assert(oldv[i as int].0 == lower_of(spoken@));
                    }
                }
            },
            None => {
                self.entries.push((key, replacement));
                proof {
                    assert(self@ =~= oldv.push((lower_of(spoken@), replacement@)));
                    assert forall|a: int, b: int| 0 <= a < b < self@.len() implies self@[a].0
                        != self@[b].0 by {
                        if b == oldv.len() {
                            assert(oldv[a].0 == lower_of(spoken@) ==> has_key(
                                oldv,
                                lower_of(spoken@),
                            ));
                        }
                    }
                }
            },
        }
    }

    /// Drops the entry for the phrase, lowercased, if there is one; the
    /// rest of the mapping is untouched.
    pub fn remove(&mut self, spoken: &String)
        requires
            old(self).wf(),
        ensures
            final(self).wf(),
            has_key(old(self)@, lower_of(spoken@)) ==> exists|i: int|
                0 <= i < old(self)@.len() && old(self)@[i].0 == lower_of(spoken@) && final(self)@ == old(self)@.remove(i),
            !has_key(old(self)@, lower_of(spoken@)) ==> final(self)@ == old(self)@,
    {
        let key = lowercase(spoken.as_str());
        let ghost oldv = self@;
        match self.find_key(&key) {
            Some(i) => {
                self.entries.remove(i);
                proof {
                    assert(self@ =~= oldv.remove(i as int));
                    assert forall|a: int, b: int| 0 <= a < b < self@.len() implies self@[a].0
                        != self@[b].0 by {
                        let a0: int = if a < i { a } else { a + 1 };
                        let b0: int = if b < i { b } else { b + 1 };
                        assert(self@[a] == oldv[a0]);
                        assert(self@[b] == oldv[b0]);
                    }
                }
            },
            None => {},
        }
    }

    /// A field-by-field copy.
    pub fn duplicate(&self) -> (r: Self)
        ensures
            r@ == self@,
    {
        let mut entries: Vec<(String, String)> = Vec::new();
        let mut i: usize = 0;
        while i < self.entries.len()
            invariant
                i <= self.entries@.len(),
                entries@.len() == i,
                forall|k: int|
                    0 <= k < i ==> (#[trigger] entries@[k].0)@ == self@[k].0 && entries@[k].1@
                        == self@[k].1,
            decreases self.entries@.len() - i,
        {
            let spoken = self.entries[i].0.clone();
            let replacement = self.entries[i].1.clone();
            entries.push((spoken, replacement));
            i = i + 1;
        }
        let r = KeywordMap { entries };
        proof {
            assert(r@ =~= self@);
        }
        r
    }
}

/// The transcript after replacing, entry by entry in order, every
/// case-insensitive occurrence of each spoken phrase.
pub open spec fn apply_keywords_spec(
    text: Seq<char>,
    entries: Seq<(Seq<char>, Seq<char>)>,
) -> Seq<char>
    decreases entries.len(),
{
    if entries.len() == 0 {
        text
    } else {
        apply_keywords_spec(replace_ci(text, entries[0].0, entries[0].1), entries.drop_first())
    }
}

/// Case-insensitive literal keyword substitution over the whole mapping,
/// applied entry by entry.
pub fn apply_keywords(text: &str, keywords: &KeywordMap) -> (r: String)
    ensures
        r@ == apply_keywords_spec(text@, keywords@),
{
    let mut result = String::from_str(text);
    let mut i: usize = 0;
    proof {
        assert(keywords@.skip(0) =~= keywords@);
    }
    while i < keywords.len()
        invariant
            i <= keywords@.len(),
            apply_keywords_spec(text@, keywords@) == apply_keywords_spec(
                result@,
                keywords@.skip(i as int),
            ),
        decreases keywords@.len() - i,
    {
        let spoken = keywords.spoken_at(i);
        let replacement = keywords.replacement_at(i);
        let next = replace_case_insensitive(result.as_str(), spoken.as_str(), replacement.as_str());
        proof {
            assert(keywords@.skip(i as int)[0] == keywords@[i as int]);
            assert(keywords@.skip(i as int).drop_first() =~= keywords@.skip(i as int + 1));
        }
        result = next;
        i = i + 1;
    }
    result
}

} // verus!
