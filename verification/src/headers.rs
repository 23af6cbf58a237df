//! The headers of a response: reading raw header lines into a table of text.

use vstd::prelude::*;
use vstd::string::*;
use crate::error::DispatchError;

verus! {

/// One header line of a response as the transport received it: the name as
/// text, the value as bytes. A name may occur on several lines.
#[derive(Debug)]
pub struct RawHeader {
    pub name: String,
    pub value: Vec<u8>,
}

/// The bytes that may stand in a header value that counts as text: the
/// printable ASCII characters, the space and the tab.
pub open spec fn is_visible(b: u8) -> bool {
    (32 <= b && b < 127) || b == 9
}

/// Whether a header value is text: every byte of it is visible.
pub open spec fn is_text(bytes: Seq<u8>) -> bool {
    forall|i: int| 0 <= i < bytes.len() ==> is_visible(#[trigger] bytes[i])
}

/// The characters of a header value that is text, one for each byte.
pub open spec fn text_of(bytes: Seq<u8>) -> Seq<char> {
    Seq::new(bytes.len(), |i: int| bytes[i] as char)
}

/// The headers that a list of lines amounts to. Lines count in the order
/// given, so of several lines with one name the last text value stays; a line
/// whose value is no text counts for nothing.
pub open spec fn collected(lines: Seq<RawHeader>) -> Map<Seq<char>, Seq<char>>
    decreases lines.len(),
{
    if lines.len() == 0 {
        Map::empty()
    } else {
        let earlier = collected(lines.drop_last());
        let line = lines.last();
        if is_text(line.value@) {
            earlier.insert(line.name@, text_of(line.value@))
        } else {
            earlier
        }
    }
}

/// The mapping that a list of name and value pairs stands for, a later pair
/// replacing an earlier one of the same name.
pub open spec fn table_of(entries: Seq<(String, String)>) -> Map<Seq<char>, Seq<char>>
    decreases entries.len(),
{
    if entries.len() == 0 {
        Map::empty()
    } else {
        table_of(entries.drop_last()).insert(entries.last().0@, entries.last().1@)
    }
}

/// Whether no name stands twice in a list of pairs.
pub open spec fn names_distinct(entries: Seq<(String, String)>) -> bool {
    forall|i: int, j: int|
        0 <= i < j < entries.len() ==> (#[trigger] entries[i]).0@ != (#[trigger] entries[j]).0@
}

/// A name that no pair of the list has is no key of its mapping.
pub proof fn lemma_table_absent(entries: Seq<(String, String)>, name: Seq<char>)
    requires
        forall|i: int| 0 <= i < entries.len() ==> (#[trigger] entries[i]).0@ != name,
    ensures
        !table_of(entries).contains_key(name),
    decreases entries.len(),
{
    if entries.len() > 0 {
        let front = entries.drop_last();
        assert forall|i: int| 0 <= i < front.len() implies (#[trigger] front[i]).0@ != name by {
            assert(front[i] == entries[i]);
        }
        lemma_table_absent(front, name);
        assert(entries.last() == entries[entries.len() - 1]);
    }
}

/// Where no name stands twice, each pair's name is a key of the mapping and
/// leads to that pair's value.
pub proof fn lemma_table_lookup(entries: Seq<(String, String)>, i: int)
    requires
        names_distinct(entries),
        0 <= i < entries.len(),
    ensures
        table_of(entries).contains_key(entries[i].0@),
        table_of(entries)[entries[i].0@] == entries[i].1@,
    decreases entries.len(),
{
    let front = entries.drop_last();
    if i < entries.len() - 1 {
        assert forall|a: int, b: int| 0 <= a < b < front.len() implies (#[trigger] front[a]).0@ != (
        #[trigger] front[b]).0@ by {
            assert(front[a] == entries[a]);
            assert(front[b] == entries[b]);
        }
        lemma_table_lookup(front, i);
        assert(front[i] == entries[i]);
        assert(entries[i].0@ != entries[entries.len() - 1].0@);
    }
}

/// Where no name stands twice, writing a new value into the pair that has a
/// name is the same as inserting the name with that value into the mapping.
pub proof fn lemma_table_replace(entries: Seq<(String, String)>, i: int, pair: (String, String))
    requires
        names_distinct(entries),
        0 <= i < entries.len(),
        entries[i].0@ == pair.0@,
    ensures
        names_distinct(entries.update(i, pair)),
        table_of(entries.update(i, pair)) == table_of(entries).insert(pair.0@, pair.1@),
    decreases entries.len(),
{
    let changed = entries.update(i, pair);
    assert forall|a: int, b: int| 0 <= a < b < changed.len() implies (#[trigger] changed[a]).0@ != (
    #[trigger] changed[b]).0@ by {
        assert(changed[a].0@ == entries[a].0@);
        assert(changed[b].0@ == entries[b].0@);
    }
    let front = entries.drop_last();
    let last = entries.len() - 1;
    if i == last {
        assert(changed.drop_last() == front);
        assert(table_of(changed) =~= table_of(entries).insert(pair.0@, pair.1@));
    } else {
        assert forall|a: int, b: int| 0 <= a < b < front.len() implies (#[trigger] front[a]).0@ != (
        #[trigger] front[b]).0@ by {
            assert(front[a] == entries[a]);
            assert(front[b] == entries[b]);
        }
        assert(front[i] == entries[i]);
        lemma_table_replace(front, i, pair);
        assert(changed.drop_last() == front.update(i, pair));
        assert(changed.last() == entries.last());
        assert(entries[i].0@ != entries[last].0@);
        assert(table_of(changed) =~= table_of(entries).insert(pair.0@, pair.1@));
    }
}

/// The headers of a response: each name once, with its value as text.
#[derive(Debug)]
pub struct HeaderTable {
    entries: Vec<(String, String)>,
}

impl View for HeaderTable {
    type V = Map<Seq<char>, Seq<char>>;

    closed spec fn view(&self) -> Map<Seq<char>, Seq<char>> {
        table_of(self.entries@)
    }
}

impl HeaderTable {
    /// The table's invariant: no name stands twice.
    #[verifier::type_invariant]
    closed spec fn wf(&self) -> bool {
        names_distinct(self.entries@)
    }

    /// A table without headers.
    pub fn new() -> (t: HeaderTable)
        ensures
            t@ == Map::<Seq<char>, Seq<char>>::empty(),
    {
        HeaderTable { entries: Vec::new() }
    }

    /// The place of the pair that has `name`, if there is one.
    fn position(&self, name: &String) -> (r: Option<usize>)
        ensures
            match r {
                Some(i) => i < self.entries@.len() && self.entries@[i as int].0@ == name@,
                None => forall|j: int|
                    0 <= j < self.entries@.len() ==> (#[trigger] self.entries@[j]).0@ != name@,
            },
    {
        let mut i: usize = 0;
        while i < self.entries.len()
            invariant
                0 <= i <= self.entries@.len(),
                forall|j: int| 0 <= j < i ==> (#[trigger] self.entries@[j]).0@ != name@,
            decreases self.entries@.len() - i,
        {
            if self.entries[i].0 == *name {
                return Some(i);
            }
            i = i + 1;
        }
        None
    }

    /// Sets the header `name` to `value`, in place of the value that the name
    /// had, if it had one.
    pub fn insert(&mut self, name: String, value: String)
        ensures
            final(self)@ == old(self)@.insert(name@, value@),
    {
        proof {
            use_type_invariant(&*self);
        }
        let found = self.position(&name);
        let mut entries: Vec<(String, String)> = Vec::new();
        std::mem::swap(&mut entries, &mut self.entries);
        let ghost before = entries@;
        match found {
            Some(i) => {
                proof {
                    lemma_table_replace(before, i as int, (name, value));
                }
                entries.set(i, (name, value));
            },
            None => {
                entries.push((name, value));
                proof {
                    let after = entries@;
                    assert(after.drop_last() == before);
                    assert forall|a: int, b: int| 0 <= a < b < after.len() implies (
                    #[trigger] after[a]).0@ != (#[trigger] after[b]).0@ by {
                        assert(after[a] == before[a]);
                        if b < before.len() {
                            assert(after[b] == before[b]);
                        }
                    }
                }
            },
        }
        self.entries = entries;
    }

    /// The value of the header `name`, if the table has it.
    pub fn get(&self, name: &str) -> (r: Option<&String>)
        ensures
            r is Some <==> self@.contains_key(name@),
            r is Some ==> r->Some_0@ == self@[name@],
    {
        proof {
            use_type_invariant(self);
        }
        let wanted = name.to_owned();
        match self.position(&wanted) {
            Some(i) => {
                proof {
                    lemma_table_lookup(self.entries@, i as int);
                }
                Some(&self.entries[i].1)
            },
            None => {
                proof {
                    lemma_table_absent(self.entries@, name@);
                }
                None
            },
        }
    }

    /// The number of headers.
    pub fn len(&self) -> (n: usize)
        ensures
            n == self@.dom().len(),
            self@.dom().finite(),
    {
        proof {
            use_type_invariant(self);
            lemma_table_size(self.entries@);
        }
        self.entries.len()
    }

    /// Gives the headers out as pairs, each name once.
    pub fn into_pairs(self) -> (pairs: Vec<(String, String)>)
        ensures
            names_distinct(pairs@),
            table_of(pairs@) == self@,
    {
        proof {
            use_type_invariant(&self);
        }
        self.entries
    }
}

/// Where no name stands twice, the mapping has as many keys as the list has
/// pairs.
pub proof fn lemma_table_size(entries: Seq<(String, String)>)
    requires
        names_distinct(entries),
    ensures
        table_of(entries).dom().finite(),
        table_of(entries).dom().len() == entries.len(),
    decreases entries.len(),
{
    if entries.len() > 0 {
        let front = entries.drop_last();
        assert forall|a: int, b: int| 0 <= a < b < front.len() implies (#[trigger] front[a]).0@ != (
        #[trigger] front[b]).0@ by {
            assert(front[a] == entries[a]);
            assert(front[b] == entries[b]);
        }
        lemma_table_size(front);
        assert forall|i: int| 0 <= i < front.len() implies (#[trigger] front[i]).0@
            != entries.last().0@ by {
            assert(front[i] == entries[i]);
            assert(entries.last() == entries[entries.len() - 1]);
        }
        lemma_table_absent(front, entries.last().0@);
    }
}

/// Reads a header value as text. A value with a byte that is not visible is
/// no text.
pub fn header_text(value: &Vec<u8>) -> (r: Option<String>)
    ensures
        r is Some <==> is_text(value@),
        r is Some ==> r->Some_0@ == text_of(value@),
{
    let mut text = String::new();
    let mut i: usize = 0;
    while i < value.len()
        invariant
            0 <= i <= value@.len(),
            text@ == text_of(value@.take(i as int)),
            is_text(value@.take(i as int)),
        decreases value@.len() - i,
    {
        let b: u8 = value[i];
        if !((32 <= b && b < 127) || b == 9) {
            return None;
        }
        text.push(b as char);
        proof {
            let longer = value@.take(i as int + 1);
            assert(longer.drop_last() == value@.take(i as int));
            assert(text@ =~= text_of(longer));
        }
        i = i + 1;
    }
    proof {
        assert(value@.take(i as int) == value@);
    }
    Some(text)
}

/// Collects the headers of a response from its lines.
pub fn collect_headers(lines: &Vec<RawHeader>) -> (table: HeaderTable)
    ensures
        table@ == collected(lines@),
{
    let mut table = HeaderTable::new();
    let mut i: usize = 0;
    while i < lines.len()
        invariant
            0 <= i <= lines@.len(),
            table@ == collected(lines@.take(i as int)),
        decreases lines@.len() - i,
    {
        proof {
            let longer = lines@.take(i as int + 1);
            assert(longer.drop_last() == lines@.take(i as int));
            assert(longer.last() == lines@[i as int]);
        }
        match header_text(&lines[i].value) {
            Some(text) => {
                table.insert(lines[i].name.clone(), text);
            },
            None => {},
        }
        i = i + 1;
    }
    proof {
        assert(lines@.take(i as int) == lines@);
    }
    table
}

} // verus!
