//! The unpacker's decisions: joining a directory with an entry name, and
//! recognising the single-nested-archive case in a freshly extracted
//! directory. The downloaded archive itself, `libscip.zip`, sits in that
//! directory and is not an extracted entry, so the inspection leaves it out
//! of account.

use vstd::prelude::*;
use vstd::string::StrSliceExecFns;

verus! {

/// A directory path joined with an entry name: a `/` separates the two
/// unless the directory is empty or already ends with one.
pub open spec fn joined(dir: Seq<char>, name: Seq<char>) -> Seq<char> {
    if dir.len() == 0 {
        name
    } else if dir[dir.len() - 1] == '/' {
        dir + name
    } else {
        dir + seq!['/'] + name
    }
}

/// Join a directory path and an entry name with a `/` separator.
pub fn join_path(dir: &str, name: &str) -> (r: String)
    ensures
        r@ == joined(dir@, name@),
{
    let n: usize = dir.unicode_len();
    if n == 0 {
        return name.to_owned();
    }
    let mut r: String = dir.to_owned();
    if dir.get_char(n - 1) != '/' {
        r.push_str("/");
        proof {
            reveal_strlit("/");
            assert(r@ =~= dir@ + seq!['/']);
        }
    }
    r.push_str(name);
    r
}

/// Whether a file name carries the extension `zip`, exactly and
/// case-sensitively: the name ends in `.zip`, and the `.` is not the first
/// character (a name that is nothing but `.zip` has no stem and therefore no
/// extension).
pub open spec fn has_zip_extension(name: Seq<char>) -> bool {
    &&& name.len() >= 5
    &&& name[name.len() - 4] == '.'
    &&& name[name.len() - 3] == 'z'
    &&& name[name.len() - 2] == 'i'
    &&& name[name.len() - 1] == 'p'
}

/// Decide whether a file name carries the `zip` extension.
pub fn name_has_zip_extension(name: &str) -> (r: bool)
    ensures
        r == has_zip_extension(name@),
{
    let n: usize = name.unicode_len();
    if n < 5 {
        return false;
    }
    name.get_char(n - 4) == '.' && name.get_char(n - 3) == 'z' && name.get_char(n - 2) == 'i'
        && name.get_char(n - 1) == 'p'
}

/// Compare two strings character by character.
pub fn str_eq(a: &str, b: &str) -> (r: bool)
    ensures
        r == (a@ == b@),
{
    let n: usize = a.unicode_len();
    let m: usize = b.unicode_len();
    if n != m {
        return false;
    }
    let mut i: usize = 0;
    while i < n
        invariant
            n == a@.len(),
            n == b@.len(),
            i <= n,
            forall|j: int| 0 <= j < i ==> a@[j] == b@[j],
        decreases n - i,
    {
        if a.get_char(i) != b.get_char(i) {
            return false;
        }
        i = i + 1;
    }
    proof {
        assert(a@ =~= b@);
    }
    true
}

/// The entries of a directory listing besides the downloaded archive: every
/// name other than `libscip.zip`, in listing order.
pub open spec fn entries_besides_archive(entries: Seq<String>) -> Seq<String>
    decreases entries.len(),
{
    if entries.len() == 0 {
        Seq::empty()
    } else {
        let rest = entries_besides_archive(entries.drop_last());
        if entries.last()@ == "libscip.zip"@ {
            rest
        } else {
            rest.push(entries.last())
        }
    }
}

/// The nested-archive case holds of a directory listing exactly when,
/// leaving the downloaded archive `libscip.zip` out of account, there is a
/// single entry and that entry's extension is `zip`.
pub open spec fn nested_zip_present(entries: Seq<String>) -> bool {
    entries_besides_archive(entries).len() == 1 && has_zip_extension(nested_zip_name(entries))
}

/// The name of the nested archive a listing holds: the one entry besides
/// the downloaded archive.
pub open spec fn nested_zip_name(entries: Seq<String>) -> Seq<char> {
    entries_besides_archive(entries)[0]@
}

proof fn lemma_entries_besides_archive_differ(entries: Seq<String>)
    ensures
        forall|k: int|
            0 <= k < entries_besides_archive(entries).len() ==> (#[trigger] entries_besides_archive(
                entries,
            )[k])@ != "libscip.zip"@,
    decreases entries.len(),
{
    if entries.len() > 0 {
        lemma_entries_besides_archive_differ(entries.drop_last());
        let rest = entries_besides_archive(entries.drop_last());
        let all = entries_besides_archive(entries);
        assert forall|k: int| 0 <= k < all.len() implies (#[trigger] all[k])@ != "libscip.zip"@ by {
            if entries.last()@ == "libscip.zip"@ {
                assert(all[k] == rest[k]);
            } else {
                if k < rest.len() {
                    assert(all[k] == rest[k]);
                } else {
                    assert(all[k] == entries.last());
                }
            }
        }
    }
}

/// The entry the nested-archive case picks is never the downloaded archive
/// itself: its name differs from `libscip.zip`.
pub proof fn nested_zip_name_is_not_archive(entries: Seq<String>)
    requires
        nested_zip_present(entries),
    ensures
        nested_zip_name(entries) != "libscip.zip"@,
{
    lemma_entries_besides_archive_differ(entries);
}

/// Find the nested archive in a directory listing: the single entry besides
/// the downloaded archive, provided its extension is `zip`.
pub fn find_nested_zip(entries: &Vec<String>) -> (r: Option<String>)
    ensures
        r is Some <==> nested_zip_present(entries@),
        r matches Some(name) ==> name@ == nested_zip_name(entries@) && name@ != "libscip.zip"@,
{
    let mut found: Option<String> = None;
    let mut count: usize = 0;
    let mut i: usize = 0;
    while i < entries.len()
        invariant
            i <= entries@.len(),
            count <= i,
            count as int == entries_besides_archive(entries@.take(i as int)).len(),
            count == 0 <==> found is None,
            found matches Some(f) ==> f@ == entries_besides_archive(entries@.take(i as int))[0]@
                && f@ != "libscip.zip"@,
        decreases entries@.len() - i,
    {
        let e = &entries[i];
        proof {
            assert(entries@.take(i as int + 1).drop_last() =~= entries@.take(i as int));
            assert(entries@.take(i as int + 1).last() == entries@[i as int]);
        }
        if !str_eq(e.as_str(), "libscip.zip") {
            if count == 0 {
                found = Some(e.clone());
            }
            count = count + 1;
        }
        i = i + 1;
    }
    proof {
        assert(entries@.take(entries@.len() as int) =~= entries@);
    }
    if count == 1 {
        match found {
            Some(f) => {
                if name_has_zip_extension(f.as_str()) {
                    Some(f)
                } else {
                    None
                }
            },
            None => unreached(),
        }
    } else {
        None
    }
}

} // verus!
