//! Where a new password is stored: the name typed for it, read as a path
//! of `/`-separated directories below the store, ending in a `.gpg` file.
use vstd::prelude::*;

verus! {

/// The pieces of `s` between the occurrences of `sep`, in order
/// (`str::split` with a one-character pattern). There is always at least one.
pub open spec fn split_on(s: Seq<char>, sep: char) -> Seq<Seq<char>>
    decreases s.len(),
{
    if s.len() == 0 {
        seq![Seq::<char>::empty()]
    } else {
        let init = split_on(s.drop_last(), sep);
        if s.last() == sep {
            init.push(Seq::<char>::empty())
        } else {
            init.update(init.len() - 1, init.last().push(s.last()))
        }
    }
}

/// The pieces joined again, with `sep` between two neighbours.
pub open spec fn join_with(parts: Seq<Seq<char>>, sep: char) -> Seq<char>
    decreases parts.len(),
{
    if parts.len() == 0 {
        Seq::<char>::empty()
    } else if parts.len() == 1 {
        parts[0]
    } else {
        join_with(parts.drop_last(), sep) + seq![sep] + parts.last()
    }
}

/// The file name extension of an encrypted password file.
pub open spec fn gpg_suffix() -> Seq<char> {
    seq!['.', 'g', 'p', 'g']
}

/// The path, below the store, of the file of a new password named `name`:
/// each `/`-separated piece but the last is a directory, the last names the
/// file, with `.gpg` after it.
pub open spec fn entry_file_components(name: Seq<char>) -> Seq<Seq<char>> {
    let parts = split_on(name, '/');
    parts.update(parts.len() - 1, parts.last() + gpg_suffix())
}

/// How often `c` occurs in `s`.
pub open spec fn count_char(s: Seq<char>, c: char) -> nat
    decreases s.len(),
{
    if s.len() == 0 {
        0
    } else {
        count_char(s.drop_last(), c) + if s.last() == c { 1nat } else { 0nat }
    }
}

proof fn lemma_split_shape(s: Seq<char>, sep: char)
    ensures
        split_on(s, sep).len() == count_char(s, sep) + 1,
        join_with(split_on(s, sep), sep) == s,
        forall|i: int|
            0 <= i < split_on(s, sep).len() ==> !(#[trigger] split_on(s, sep)[i]).contains(sep),
    decreases s.len(),
{
    if s.len() > 0 {
        let init = split_on(s.drop_last(), sep);
        lemma_split_shape(s.drop_last(), sep);
        let parts = split_on(s, sep);
        if s.last() == sep {
            assert(parts.drop_last() =~= init);
            if init.len() == 1 {
                assert(join_with(parts, sep) =~= init[0] + seq![sep] + Seq::<char>::empty());
            }
            assert(join_with(parts, sep) =~= s);
            assert forall|i: int| 0 <= i < parts.len() implies !(#[trigger] parts[i]).contains(sep) by {
                if i < init.len() {
                    assert(parts[i] == init[i]);
                } else {
                    assert(parts[i] =~= Seq::<char>::empty());
                }
            }
        } else {
            let last = init.last().push(s.last());
            if init.len() == 1 {
                assert(parts.len() == 1);
                assert(parts[0] == last);
                assert(join_with(init, sep) == init[0]);
                assert(init.last() == init[0]);
                assert(init[0] == s.drop_last());
                assert(last =~= s);
                assert(join_with(parts, sep) == parts[0]);
            } else {
                assert(parts.drop_last() =~= init.drop_last());
                assert(join_with(parts, sep) == join_with(init.drop_last(), sep) + seq![sep] + last);
                assert(join_with(init, sep) == join_with(init.drop_last(), sep) + seq![sep] + init.last());
                assert(join_with(parts, sep) =~= join_with(init, sep).push(s.last()));
                assert(s =~= s.drop_last().push(s.last()));
            }
            assert forall|i: int| 0 <= i < parts.len() implies !(#[trigger] parts[i]).contains(sep) by {
                if i < init.len() - 1 {
                    assert(parts[i] == init[i]);
                } else {
                    assert(parts[i] == last);
                    assert(!init[init.len() - 1].contains(sep));
                    if last.contains(sep) {
                        let k = choose|k: int| 0 <= k < last.len() && last[k] == sep;
                        if k < last.len() - 1 {
                            assert(init.last()[k] == sep);
                        }
                    }
                }
            }
        }
    }
}

proof fn lemma_join_extend_last(parts: Seq<Seq<char>>, sep: char, extra: Seq<char>)
    requires
        parts.len() >= 1,
    ensures
        join_with(parts.update(parts.len() - 1, parts.last() + extra), sep) == join_with(parts, sep)
            + extra,
{
    let updated = parts.update(parts.len() - 1, parts.last() + extra);
    if parts.len() == 1 {
        assert(updated[0] == parts[0] + extra);
    } else {
        assert(updated.drop_last() =~= parts.drop_last());
        assert(join_with(updated, sep) =~= join_with(parts, sep) + extra);
    }
}

/// The file of a new password lies where its name says: joining the
/// pieces with `/` gives the name with `.gpg` after it; no piece holds a
/// `/`; and there is one piece more than the name has `/`s.
pub proof fn lemma_entry_file_components(name: Seq<char>)
    ensures
        join_with(entry_file_components(name), '/') == name + gpg_suffix(),
        entry_file_components(name).len() == count_char(name, '/') + 1,
        forall|i: int|
            0 <= i < entry_file_components(name).len() - 1 ==> !(
            #[trigger] entry_file_components(name)[i]).contains('/'),
        entry_file_components(name).last() == split_on(name, '/').last() + gpg_suffix(),
{
    lemma_split_shape(name, '/');
    lemma_join_extend_last(split_on(name, '/'), '/', gpg_suffix());
    let parts = split_on(name, '/');
    assert forall|i: int|
        0 <= i < entry_file_components(name).len() - 1 implies !(
        #[trigger] entry_file_components(name)[i]).contains('/') by {
        assert(entry_file_components(name)[i] == parts[i]);
    }
}

/// The directories and the file name, in order, of the file that a new
/// password named `name` is stored in, below the store's directory.
pub fn password_file_components(name: &str) -> (r: Vec<String>)
    ensures
        r@.len() == entry_file_components(name@).len(),
        forall|i: int|
            0 <= i < r@.len() ==> #[trigger] r@[i]@ == entry_file_components(name@)[i],
{
    let n = name.unicode_len();
    let mut comps: Vec<String> = Vec::new();
    let mut start: usize = 0;
    let mut i: usize = 0;
    while i < n
        invariant
            n == name@.len(),
            start <= i <= n,
            comps@.len() + 1 == split_on(name@.take(i as int), '/').len(),
            forall|j: int|
                0 <= j < comps@.len() ==> #[trigger] comps@[j]@ == split_on(
                    name@.take(i as int),
                    '/',
                )[j],
            split_on(name@.take(i as int), '/').last() == name@.subrange(start as int, i as int),
        decreases n - i,
    {
        let c = name.get_char(i);
        let ghost before = split_on(name@.take(i as int), '/');
        proof {
            assert(name@.take(i + 1).drop_last() =~= name@.take(i as int));
            assert(name@.take(i + 1).last() == c);
        }
        if c == '/' {
            let piece = String::from_str(name.substring_char(start, i));
            comps.push(piece);
            start = i + 1;
            proof {
                assert(name@.subrange(start as int, (i + 1) as int) =~= Seq::<char>::empty());
            }
        } else {
            proof {
                assert(name@.subrange(start as int, (i + 1) as int) =~= name@.subrange(
                    start as int,
                    i as int,
                ).push(c));
            }
        }
        i = i + 1;
    }
    proof {
        assert(name@.take(n as int) =~= name@);
        reveal_strlit(".gpg");
    }
    let mut last = String::from_str(name.substring_char(start, n));
    last.append(".gpg");
    comps.push(last);
    comps
}

} // verus!
