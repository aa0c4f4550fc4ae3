//! The update service of the classic update client: which files a client of a given version
//! is sent, and under which names

use crate::text::{push_decimal, push_str};
use crate::world::item::same_text;
use std::collections::HashMap;
use vstd::prelude::*;
use vstd::std_specs::iter::IteratorSpec;

verus! {

broadcast use vstd::std_specs::hash::group_hash_axioms;

/// A list of files to send to the client
#[derive(Debug)]
pub struct UpdateFileSet {
    /// The list of files to send
    pub files: Vec<String>,
    /// The new cs field for the game client
    pub new_cs: u32,
}

/// The set of files to deliver for each possible version of client
#[derive(Debug)]
pub struct UpdateFiles {
    /// The files to deliver for each version
    pub versions: HashMap<u32, UpdateFileSet>,
}

impl UpdateFiles {
    /// No updates
    pub fn new() -> (u: UpdateFiles)
        ensures
            u.versions@ == Map::<u32, UpdateFileSet>::empty(),
    {
        UpdateFiles { versions: HashMap::new() }
    }

    /// Deliver `set` to clients whose checksum is `old_cs`
    pub fn insert(&mut self, old_cs: u32, set: UpdateFileSet)
        ensures
            final(self).versions@ == old(self).versions@.insert(old_cs, set),
    {
        self.versions.insert(old_cs, set);
    }

    /// The files for a client whose checksum is `cs`, if it is known
    pub fn lookup(&self, cs: u32) -> (r: Option<&UpdateFileSet>)
        ensures
            match r {
                Some(s) => self.versions@.contains_key(cs) && *s == self.versions@[cs],
                None => !self.versions@.contains_key(cs),
            },
    {
        self.versions.get(&cs)
    }
}

/// The name under which a file is sent: `"sprite/" name`
pub open spec fn sprite_path(name: Seq<char>) -> Seq<char> {
    "sprite/"@ + name
}

/// The name under which a file is sent
pub fn sprite_name(name: &str) -> (r: String)
    ensures
        r@ == sprite_path(name@),
{
    let mut r = String::new();
    push_str(&mut r, "sprite/");
    push_str(&mut r, name);
    r
}

/// Where the compressed file `name` for the checksum `cs` is kept:
/// `"./update-files/" cs "/" name ".gz"`
pub open spec fn stored_path(cs: u32, name: Seq<char>) -> Seq<char> {
    "./update-files/"@ + crate::text::decimal(cs as nat) + "/"@ + name + ".gz"@
}

/// Where the compressed file `name` for the checksum `cs` is kept
pub fn update_file_path(cs: u32, name: &str) -> (r: String)
    ensures
        r@ == stored_path(cs, name@),
{
    let mut r = String::new();
    push_str(&mut r, "./update-files/");
    push_decimal(&mut r, cs);
    push_str(&mut r, "/");
    push_str(&mut r, name);
    push_str(&mut r, ".gz");
    r
}

/// Does `s` end with `".gz"`?
pub open spec fn ends_gz(s: Seq<char>) -> bool {
    s.len() >= 3 && s.subrange(s.len() - 3, s.len() as int) == seq!['.', 'g', 'z']
}

/// `s` without all the `".gz"` at its end (as `trim_end_matches(".gz")`)
pub open spec fn trim_gz(s: Seq<char>) -> Seq<char>
    decreases s.len(),
{
    if ends_gz(s) {
        trim_gz(s.subrange(0, s.len() - 3))
    } else {
        s
    }
}

/// The name of an update file found in the update folder: the file name without its `".gz"`
/// endings, for a file whose name ends with `".gz"`; none for other files
pub fn gz_stem(name: &str) -> (r: Option<String>)
    ensures
        ends_gz(name@) ==> (r matches Some(s) && s@ == trim_gz(name@)),
        !ends_gz(name@) ==> r is None,
{
    let mut chars: Vec<char> = Vec::new();
    let mut it = name.chars();
    let ghost s = name@;
    loop
        invariant
            it.obeys_prophetic_iter_laws(),
            chars@.len() <= s.len(),
            it.remaining() == s.skip(chars@.len() as int),
            chars@ == s.subrange(0, chars@.len() as int),
        ensures
            chars@ == s,
        decreases s.len() - chars@.len(),
    {
        match it.next() {
            Some(c) => {
                proof {
                    assert(s.skip(chars@.len() as int)[0] == s[chars@.len() as int]);
                    assert(s.skip(chars@.len() as int).drop_first() =~= s.skip(chars@.len() as int + 1));
                }
                chars.push(c);
                assert(chars@ =~= s.subrange(0, chars@.len() as int));
            },
            None => {
                assert(s.subrange(0, chars@.len() as int) =~= s);
                break;
            },
        }
    }
    let mut end: usize = chars.len();
    let ghost t = s;
    if !(end >= 3 && chars[end - 3] == '.' && chars[end - 2] == 'g' && chars[end - 1] == 'z') {
        assert(!ends_gz(s)) by {
            if ends_gz(s) {
                assert(s.subrange(s.len() - 3, s.len() as int)[0] == s[s.len() - 3]);
            }
        }
        return None;
    }
    assert(ends_gz(s)) by {
        assert(s.subrange(s.len() - 3, s.len() as int) =~= seq!['.', 'g', 'z']);
    }
    while end >= 3 && chars[end - 3] == '.' && chars[end - 2] == 'g' && chars[end - 1] == 'z'
        invariant
            end <= chars@.len(),
            chars@ == s,
            trim_gz(s.subrange(0, end as int)) == trim_gz(s),
        decreases end,
    {
        let ghost cur = s.subrange(0, end as int);
        assert(ends_gz(cur)) by {
            assert(cur.subrange(cur.len() - 3, cur.len() as int) =~= seq!['.', 'g', 'z']);
        }
        assert(cur.subrange(0, cur.len() - 3) =~= s.subrange(0, end - 3));
        end = end - 3;
    }
    let ghost cur = s.subrange(0, end as int);
    assert(!ends_gz(cur)) by {
        if ends_gz(cur) {
            assert(cur.subrange(cur.len() - 3, cur.len() as int)[0] == cur[cur.len() - 3]);
            assert(cur.subrange(cur.len() - 3, cur.len() as int)[1] == cur[cur.len() - 2]);
            assert(cur.subrange(cur.len() - 3, cur.len() as int)[2] == cur[cur.len() - 1]);
        }
    }
    let mut r = String::new();
    let mut i: usize = 0;
    while i < end
        invariant
            i <= end <= chars@.len(),
            chars@ == s,
            r@ == s.subrange(0, i as int),
        decreases end - i,
    {
        crate::text::push_char(&mut r, chars[i]);
        assert(r@ =~= s.subrange(0, i + 1));
        i = i + 1;
    }
    Some(r)
}

/// Is the file the one that holds the new checksum?
pub fn is_new_cs_file(name: &str) -> (b: bool)
    ensures
        b == (name@ == "newcs"@),
{
    same_text(name, "newcs")
}

} // verus!
