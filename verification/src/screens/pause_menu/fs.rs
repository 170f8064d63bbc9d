use vstd::prelude::*;

verus! {

/// One entry of the directory of saved matches.
#[derive(Debug, Clone, Default)]
pub struct FileInfo {
    pub name: String,
    /// When the file was made, as year-month-day hour:minute:second.
    pub created: String,
    /// Length of the file in bytes.
    pub size: u64,
}

/// Some entry of `files` is called `name`.
pub open spec fn has_file(files: Seq<FileInfo>, name: Seq<char>) -> bool {
    exists|i: int| 0 <= i < files.len() && (#[trigger] files[i]).name@ == name
}

/// Whether some entry of `files` is called `name`.
pub fn contains_file(files: &Vec<FileInfo>, name: &String) -> (found: bool)
    ensures
        found == has_file(files@, name@),
{
    let mut i: usize = 0;
    while i < files.len()
        invariant
            i <= files.len(),
            forall|j: int| 0 <= j < i ==> (#[trigger] files[j]).name@ != name@,
        decreases files.len() - i,
    {
        if files[i].name == *name {
            return true;
        }
        i += 1;
    }
    false
}

/// A copy of a listing, entry by entry.
pub fn copy_files(files: &Vec<FileInfo>) -> (copy: Vec<FileInfo>)
    ensures
        copy@ == files@,
{
    let mut copy: Vec<FileInfo> = Vec::new();
    let mut i: usize = 0;
    while i < files.len()
        invariant
            i <= files.len(),
            copy@ == files@.subrange(0, i as int),
        decreases files.len() - i,
    {
        let entry = FileInfo {
            name: files[i].name.clone(),
            created: files[i].created.clone(),
            size: files[i].size,
        };
        copy.push(entry);
        assert(copy@ =~= files@.subrange(0, i + 1));
        i += 1;
    }
    assert(copy@ =~= files@);
    copy
}


/// `a` comes before `b` in the order of texts: at the first place where they differ `a`
/// has the lesser character, or `a` ends there and `b` goes on.
pub open spec fn text_before(a: Seq<char>, b: Seq<char>) -> bool
    decreases a.len(),
{
    if b.len() == 0 {
        false
    } else if a.len() == 0 {
        true
    } else if a[0] != b[0] {
        a[0] < b[0]
    } else {
        text_before(a.drop_first(), b.drop_first())
    }
}

/// Whether `a` comes before `b` in the order of texts.
pub fn comes_before(a: &str, b: &str) -> (before: bool)
    ensures
        before == text_before(a@, b@),
{
    let n: usize = a.unicode_len();
    let m: usize = b.unicode_len();
    let mut i: usize = 0;
    assert(a@.subrange(0, n as int) =~= a@ && b@.subrange(0, m as int) =~= b@);
    while i < n && i < m
        invariant
            i <= n,
            i <= m,
            n == a@.len(),
            m == b@.len(),
            text_before(a@, b@) == text_before(a@.subrange(i as int, n as int), b@.subrange(
                i as int,
                m as int,
            )),
        decreases n - i,
    {
        let x: char = a.get_char(i);
        let y: char = b.get_char(i);
        let ghost rest_a = a@.subrange(i as int, n as int);
        let ghost rest_b = b@.subrange(i as int, m as int);
        assert(rest_a[0] == x && rest_b[0] == y);
        if x != y {
            return x < y;
        }
        assert(rest_a.drop_first() =~= a@.subrange(i + 1, n as int));
        assert(rest_b.drop_first() =~= b@.subrange(i + 1, m as int));
        i += 1;
    }
    i < m
}

/// The listing runs from the newest save to the oldest: no entry was made before a later
/// entry.
pub open spec fn newest_first(files: Seq<FileInfo>) -> bool {
    forall|i: int, j: int|
        0 <= i < j < files.len() ==> !text_before(
            (#[trigger] files[i]).created@,
            (#[trigger] files[j]).created@,
        )
}

/// The order of texts is transitive.
proof fn lemma_text_before_transitive(a: Seq<char>, b: Seq<char>, c: Seq<char>)
    requires
        text_before(a, b),
        text_before(b, c),
    ensures
        text_before(a, c),
    decreases a.len(),
{
    if a.len() > 0 && a[0] == b[0] && b[0] == c[0] {
        lemma_text_before_transitive(a.drop_first(), b.drop_first(), c.drop_first());
    }
}

/// Of two texts one comes before the other, or they are the same.
proof fn lemma_text_before_total(a: Seq<char>, b: Seq<char>)
    ensures
        text_before(a, b) || text_before(b, a) || a == b,
    decreases a.len(),
{
    if a.len() > 0 && b.len() > 0 && a[0] == b[0] {
        lemma_text_before_total(a.drop_first(), b.drop_first());
        if a.drop_first() == b.drop_first() {
            assert(a =~= seq![a[0]] + a.drop_first());
            assert(b =~= seq![b[0]] + b.drop_first());
        }
    } else if a.len() == 0 && b.len() == 0 {
        assert(a =~= b);
    }
}

/// No text comes before itself.
proof fn lemma_text_before_irreflexive(a: Seq<char>)
    ensures
        !text_before(a, a),
    decreases a.len(),
{
    if a.len() > 0 {
        lemma_text_before_irreflexive(a.drop_first());
    }
}

/// Of two texts at most one comes before the other.
proof fn lemma_text_before_asymmetric(a: Seq<char>, b: Seq<char>)
    requires
        text_before(a, b),
    ensures
        !text_before(b, a),
{
    if text_before(b, a) {
        lemma_text_before_transitive(a, b, a);
        lemma_text_before_irreflexive(a);
    }
}

/// Where `a` does not come before `b`, and `b` not before `c`, `a` does not come before `c`.
proof fn lemma_not_before_transitive(a: Seq<char>, b: Seq<char>, c: Seq<char>)
    requires
        !text_before(a, b),
        !text_before(b, c),
    ensures
        !text_before(a, c),
{
    lemma_text_before_total(a, b);
    lemma_text_before_total(b, c);
    if text_before(a, c) {
        if a == b {
        } else if b == c {
        } else {
            lemma_text_before_transitive(c, b, a);
            lemma_text_before_transitive(a, c, a);
            lemma_text_before_irreflexive(a);
        }
    }
}

/// A sequence with one more item has that item once more, whatever its place.
proof fn lemma_insert_to_multiset(s: Seq<FileInfo>, i: int, item: FileInfo)
    requires
        0 <= i <= s.len(),
    ensures
        s.insert(i, item).to_multiset() == s.to_multiset().insert(item),
{
    let longer = s.insert(i, item);
    assert(longer.remove(i) =~= s);
    vstd::seq_lib::to_multiset_remove(longer, i);
    longer.to_multiset_ensures();
    assert(longer.contains(item)) by {
        assert(longer[i] == item);
    }
    assert(longer.to_multiset() =~= s.to_multiset().insert(item));
}

/// Sorts a listing from the newest save to the oldest, keeping saves of the same time in
/// their order.
pub fn sort_newest_first(files: Vec<FileInfo>) -> (sorted: Vec<FileInfo>)
    ensures
        sorted@.to_multiset() == files@.to_multiset(),
        newest_first(sorted@),
{
    let mut rest: Vec<FileInfo> = files;
    let mut sorted: Vec<FileInfo> = Vec::new();
    assert(sorted@.to_multiset().add(rest@.to_multiset()) =~= files@.to_multiset()) by {
        sorted@.to_multiset_ensures();
    }
    while rest.len() > 0
        invariant
            sorted@.to_multiset().add(rest@.to_multiset()) == files@.to_multiset(),
            newest_first(sorted@),
        decreases rest.len(),
    {
        let ghost rest_before = rest@;
        let ghost sorted_before = sorted@;
        let file: FileInfo = rest.remove(0);
        let mut at: usize = 0;
        let mut found: bool = false;
        while at < sorted.len() && !found
            invariant
                at <= sorted.len(),
                sorted@ == sorted_before,
                found ==> at < sorted.len() && text_before(
                    sorted[at as int].created@,
                    file.created@,
                ),
                forall|j: int|
                    0 <= j < at ==> !text_before(
                        (#[trigger] sorted[j]).created@,
                        file.created@,
                    ),
            decreases sorted.len() - at + (if found { 0int } else { 1 }),
        {
            if comes_before(sorted[at].created.as_str(), file.created.as_str()) {
                found = true;
            } else {
                at += 1;
            }
        }
        sorted.insert(at, file);
        proof {
            vstd::seq_lib::to_multiset_remove(rest_before, 0);
            lemma_insert_to_multiset(sorted_before, at as int, file);
            rest_before.to_multiset_ensures();
            assert(rest_before.contains(file)) by {
                assert(rest_before[0] == file);
            }
            assert(sorted@.to_multiset().add(rest@.to_multiset()) =~= files@.to_multiset());
            assert forall|i: int, j: int| 0 <= i < j < sorted@.len() implies !text_before(
                (#[trigger] sorted@[i]).created@,
                (#[trigger] sorted@[j]).created@,
            ) by {
                if j == at {
                    assert(sorted@[i] == sorted_before[i]);
                } else if i == at {
                    assert(sorted@[j] == sorted_before[j - 1]);
                    if j - 1 > at {
                        assert(!text_before(
                            sorted_before[at as int].created@,
                            sorted_before[j - 1].created@,
                        ));
                    } else {
                        lemma_text_before_irreflexive(sorted_before[at as int].created@);
                    }
                    lemma_text_before_asymmetric(sorted_before[at as int].created@, file.created@);
                    lemma_not_before_transitive(
                        file.created@,
                        sorted_before[at as int].created@,
                        sorted_before[j - 1].created@,
                    );
                } else {
                    let a = if i < at { i } else { i - 1 };
                    let b = if j < at { j } else { j - 1 };
                    assert(sorted@[i] == sorted_before[a]);
                    assert(sorted@[j] == sorted_before[b]);
                }
            }
        }
    }
    assert(rest@.to_multiset() =~= vstd::multiset::Multiset::<FileInfo>::empty()) by {
        rest@.to_multiset_ensures();
        assert(rest@.to_multiset().len() == 0);
    }
    assert(sorted@.to_multiset() =~= files@.to_multiset());
    sorted
}

} // verus!
