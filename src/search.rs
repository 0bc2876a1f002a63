use vstd::prelude::*;

verus! {

/// `name` resolved against the directory `prefix`: an absolute name stands
/// alone; otherwise a separator is put between them where needed.
pub open spec fn joined(prefix: Seq<char>, name: Seq<char>) -> Seq<char> {
    if name.len() > 0 && name[0] == '/' {
        name
    } else if prefix.len() == 0 || prefix[prefix.len() - 1] == '/' {
        prefix + name
    } else {
        prefix + seq!['/'] + name
    }
}

/// `name` resolved against the directory `prefix`.
pub fn join_path(prefix: &str, name: &str) -> (r: String)
    ensures
        r@ == joined(prefix@, name@),
{
    let nlen = name.unicode_len();
    if nlen > 0 && name.get_char(0) == '/' {
        return String::from_str(name);
    }
    let plen = prefix.unicode_len();
    if plen == 0 || prefix.get_char(plen - 1) == '/' {
        String::from_str(prefix).concat(name)
    } else {
        let r = String::from_str(prefix).concat("/").concat(name);
        proof {
            reveal_strlit("/");
        }
        r
    }
}

/// The places where `executable` is looked for, one per search directory,
/// in order.
pub fn candidates(paths: &Vec<String>, executable: &str) -> (r: Vec<String>)
    ensures
        r@.len() == paths@.len(),
        forall|i: int| 0 <= i < r@.len() ==> (#[trigger] r@[i])@ == joined(paths@[i]@, executable@),
{
    let mut r: Vec<String> = Vec::new();
    let mut i: usize = 0;
    while i < paths.len()
        invariant
            i <= paths@.len(),
            r@.len() == i,
            forall|j: int| 0 <= j < i ==> (#[trigger] r@[j])@ == joined(paths@[j]@, executable@),
        decreases paths@.len() - i,
    {
        r.push(join_path(paths[i].as_str(), executable));
        i = i + 1;
    }
    r
}

/// The first candidate that exists, `exists[i]` telling whether
/// `candidates[i]` does.
pub fn find_first(candidates: &Vec<String>, exists: &Vec<bool>) -> (r: Option<String>)
    requires
        candidates@.len() == exists@.len(),
    ensures
        r is None <==> forall|i: int| 0 <= i < exists@.len() ==> !(#[trigger] exists@[i]),
        r is Some ==> exists|i: int|
            0 <= i < exists@.len() && #[trigger] exists@[i] && r->0@ == candidates@[i]@
                && forall|j: int| 0 <= j < i ==> !(#[trigger] exists@[j]),
{
    let mut i: usize = 0;
    while i < candidates.len()
        invariant
            i <= candidates@.len(),
            candidates@.len() == exists@.len(),
            forall|j: int| 0 <= j < i ==> !(#[trigger] exists@[j]),
        decreases candidates@.len() - i,
    {
        if exists[i] {
            return Some(candidates[i].clone());
        }
        i = i + 1;
    }
    None
}


/// The pieces of `s` between the separators `sep`, in order; a string
/// without separators is one piece, and an empty string one empty piece.
pub open spec fn split_on(s: Seq<char>, sep: char) -> Seq<Seq<char>>
    decreases s.len(),
{
    if s.len() == 0 {
        seq![seq![]]
    } else {
        let init = split_on(s.drop_last(), sep);
        if s.last() == sep {
            init.push(seq![])
        } else {
            init.update(init.len() - 1, init.last().push(s.last()))
        }
    }
}

proof fn lemma_split_nonempty(s: Seq<char>, sep: char)
    ensures
        split_on(s, sep).len() >= 1,
    decreases s.len(),
{
    if s.len() > 0 {
        lemma_split_nonempty(s.drop_last(), sep);
    }
}

/// The directories of a search list such as `PATH`: the pieces between the
/// colons.
pub fn split_paths(list: &str) -> (r: Vec<String>)
    ensures
        r@.map_values(|p: String| p@) == split_on(list@, ':'),
{
    let n = list.unicode_len();
    let mut pieces: Vec<String> = Vec::new();
    let mut start: usize = 0;
    let mut i: usize = 0;
    assert(pieces@.map_values(|p: String| p@).push(list@.subrange(0, 0)) =~~= split_on(
        list@.subrange(0, 0),
        ':',
    ));
    while i < n
        invariant
            n == list@.len(),
            start <= i <= n,
            pieces@.map_values(|p: String| p@).push(list@.subrange(start as int, i as int))
                == split_on(list@.subrange(0, i as int), ':'),
        decreases n - i,
    {
        let c = list.get_char(i);
        let ghost before = list@.subrange(0, i as int);
        let ghost after = list@.subrange(0, i + 1);
        assert(after.drop_last() =~= before);
        assert(after.last() == c);
        proof {
            lemma_split_nonempty(before, ':');
        }
        let ghost done = pieces@.map_values(|p: String| p@);
        if c == ':' {
            let piece = String::from_str(list.substring_char(start, i));
            pieces.push(piece);
            assert(pieces@.map_values(|p: String| p@) =~= done.push(
                list@.subrange(start as int, i as int),
            ));
            start = i + 1;
            assert(list@.subrange(start as int, i + 1) =~= Seq::<char>::empty());
            assert(pieces@.map_values(|p: String| p@).push(list@.subrange(start as int, i + 1))
                =~~= split_on(after, ':'));
        } else {
            assert(list@.subrange(start as int, i + 1) =~= list@.subrange(start as int, i as int).push(c));
            assert(pieces@.map_values(|p: String| p@).push(list@.subrange(start as int, i + 1))
                =~= split_on(after, ':'));
        }
        i = i + 1;
    }
    assert(list@.subrange(0, n as int) =~= list@);
    let last = String::from_str(list.substring_char(start, n));
    pieces.push(last);
    assert(pieces@.map_values(|p: String| p@) =~= split_on(list@, ':'));
    pieces
}

/// The places where `executable` is looked for along the search list
/// `list`, in order.
pub fn search_places(list: &str, executable: &str) -> (r: Vec<String>)
    ensures
        r@.len() == split_on(list@, ':').len(),
        forall|i: int|
            0 <= i < r@.len() ==> (#[trigger] r@[i])@ == joined(split_on(list@, ':')[i], executable@),
{
    let dirs = split_paths(list);
    let r = candidates(&dirs, executable);
    assert forall|i: int| 0 <= i < r@.len() implies (#[trigger] r@[i])@ == joined(
        split_on(list@, ':')[i],
        executable@,
    ) by {
        assert(dirs@.map_values(|p: String| p@)[i] == dirs@[i]@);
    }
    r
}

} // verus!
