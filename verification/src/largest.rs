//! The list of the largest files.

use vstd::prelude::*;

use crate::model;
use crate::model::{FileEntry, FileView};

verus! {

/// `f` set into `files` behind the last file that is at least as large; the
/// files that follow are all smaller.
pub open spec fn insert_by_size(files: Seq<FileView>, f: FileView) -> Seq<FileView>
    decreases files.len(),
{
    if files.len() == 0 || files.last().bytes >= f.bytes {
        files.push(f)
    } else {
        insert_by_size(files.drop_last(), f).push(files.last())
    }
}

/// `files` from the largest to the smallest; files of one size keep their order.
pub open spec fn by_size(files: Seq<FileView>) -> Seq<FileView>
    decreases files.len(),
{
    if files.len() == 0 {
        seq![]
    } else {
        insert_by_size(by_size(files.drop_last()), files.last())
    }
}

/// The first `n` items, or all where there are fewer.
pub open spec fn first(files: Seq<FileView>, n: nat) -> Seq<FileView> {
    if files.len() <= n {
        files
    } else {
        files.take(n as int)
    }
}

/// The list after another file: the `cap` largest.
pub open spec fn keep_largest(files: Seq<FileView>, f: FileView, cap: nat) -> Seq<FileView> {
    first(by_size(files.push(f)), cap)
}

/// No file is larger than one before it.
pub open spec fn is_by_size(files: Seq<FileView>) -> bool {
    forall|i: int, j: int| 0 <= i <= j < files.len() ==> #[trigger] files[i].bytes >= #[trigger] files[j].bytes
}

/// The files of `files` that have `bytes` bytes, in their order.
pub open spec fn of_size(files: Seq<FileView>, bytes: u64) -> Seq<FileView>
    decreases files.len(),
{
    if files.len() == 0 {
        seq![]
    } else if files.last().bytes == bytes {
        of_size(files.drop_last(), bytes).push(files.last())
    } else {
        of_size(files.drop_last(), bytes)
    }
}

/// The place that [`insert_by_size`] gives to `f`.
proof fn insert_by_size_at(files: Seq<FileView>, f: FileView, k: int)
    requires
        0 <= k <= files.len(),
        k > 0 ==> files[k - 1].bytes >= f.bytes,
        forall|j: int| k <= j < files.len() ==> (#[trigger] files[j]).bytes < f.bytes,
    ensures
        insert_by_size(files, f) == files.insert(k, f),
    decreases files.len(),
{
    if k == files.len() {
        assert(files.insert(k, f) =~= files.push(f));
    } else {
        let front = files.drop_last();
        assert(files[files.len() - 1] == files.last());
        assert forall|j: int| k <= j < front.len() implies (#[trigger] front[j]).bytes < f.bytes by {
            assert(front[j] == files[j]);
        }
        insert_by_size_at(front, f, k);
        assert(front.insert(k, f).push(files.last()) =~= files.insert(k, f));
    }
}

/// Puts files in order, from the largest to the smallest; files of one size keep their order.
pub fn sort_by_size(list: &mut Vec<FileEntry>)
    ensures
        model::files_view(final(list)@) == by_size(model::files_view(old(list)@)),
{
    let ghost all = model::files_view(list@);
    let mut sorted: Vec<FileEntry> = Vec::new();
    let ghost mut done: int = 0;
    assert(all.take(0) =~= seq![]);
    assert(all.skip(0) =~= all);
    assert(model::files_view(sorted@) =~= by_size(all.take(0)));
    while list.len() > 0
        invariant
            0 <= done <= all.len(),
            list@.len() == all.len() - done,
            model::files_view(list@) == all.skip(done),
            model::files_view(sorted@) == by_size(all.take(done)),
        ensures
            done == all.len(),
            model::files_view(sorted@) == by_size(all.take(done)),
        decreases list@.len(),
    {
        let ghost rest = list@;
        let f = list.remove(0);
        proof {
            assert(model::files_view(rest)[0] == f@);
            assert(all.skip(done)[0] == all[done]);
            assert(model::files_view(list@) =~= model::files_view(rest).skip(1));
            assert(all.skip(done).skip(1) =~= all.skip(done + 1));
            assert(all.take(done + 1).drop_last() =~= all.take(done));
        }
        let mut k: usize = sorted.len();
        while k > 0 && sorted[k - 1].bytes < f.bytes
            invariant
                k <= sorted@.len(),
                forall|j: int| k <= j < sorted@.len() ==> (#[trigger] sorted@[j]).bytes < f.bytes,
            decreases k,
        {
            k -= 1;
        }
        let ghost before = sorted@;
        sorted.insert(k, f);
        proof {
            let view = model::files_view(before);
            assert forall|j: int| k <= j < view.len() implies (#[trigger] view[j]).bytes < f.bytes by {
                assert(before[j].bytes < f.bytes);
            }
            insert_by_size_at(view, f@, k as int);
            assert(model::files_view(sorted@) =~= view.insert(k as int, f@));
            done = done + 1;
        }
    }
    assert(all.take(done) =~= all);
    *list = sorted;
}

/// Adds a file to the list, which is then put in order and cut to its `cap` largest.
pub fn maybe_push_largest(list: &mut Vec<FileEntry>, entry: FileEntry, cap: usize)
    ensures
        model::files_view(final(list)@) == keep_largest(model::files_view(old(list)@), entry@, cap as nat),
{
    let ghost before = list@;
    list.push(entry);
    assert(model::files_view(list@) =~= model::files_view(before).push(entry@));
    sort_by_size(list);
    let ghost sorted = list@;
    list.truncate(cap);
    assert(model::files_view(list@) =~= first(model::files_view(sorted), cap as nat));
}

/// Setting a file into an ordered list keeps the order.
proof fn insert_keeps_order(files: Seq<FileView>, f: FileView)
    requires
        is_by_size(files),
    ensures
        is_by_size(insert_by_size(files, f)),
        insert_by_size(files, f).len() == files.len() + 1,
        forall|i: int|
            0 <= i <= files.len() ==> (#[trigger] insert_by_size(files, f)[i]).bytes >= f.bytes || (i
                > 0 && insert_by_size(files, f)[i] == files[i - 1]),
    decreases files.len(),
{
    if files.len() > 0 && files.last().bytes < f.bytes {
        let front = files.drop_last();
        insert_keeps_order(front, f);
        let inner = insert_by_size(front, f);
        let all = insert_by_size(files, f);
        assert forall|i: int, j: int| 0 <= i <= j < all.len() implies #[trigger] all[i].bytes
            >= #[trigger] all[j].bytes by {
            if j < all.len() - 1 {
                assert(inner[i].bytes >= inner[j].bytes);
            } else if i < all.len() - 1 {
                assert(inner[i].bytes >= f.bytes || (i > 0 && inner[i] == front[i - 1]));
                if i > 0 && inner[i] == front[i - 1] {
                    assert(files[i - 1].bytes >= files[files.len() - 1].bytes);
                }
            }
        }
        assert forall|i: int| 0 <= i <= files.len() implies (#[trigger] all[i]).bytes >= f.bytes || (i > 0
            && all[i] == files[i - 1]) by {
            if i < files.len() {
                assert(inner[i].bytes >= f.bytes || (i > 0 && inner[i] == front[i - 1]));
            }
        }
    } else {
        let all = insert_by_size(files, f);
        assert forall|i: int, j: int| 0 <= i <= j < all.len() implies #[trigger] all[i].bytes
            >= #[trigger] all[j].bytes by {
            if j == files.len() && i < j {
                assert(files[i].bytes >= files[files.len() - 1].bytes);
            }
        }
        assert forall|i: int| 0 <= i <= files.len() implies (#[trigger] all[i]).bytes >= f.bytes || (i > 0
            && all[i] == files[i - 1]) by {
            if i < files.len() {
                assert(files[i].bytes >= files[files.len() - 1].bytes);
            }
        }
    }
}

/// Setting a file into an ordered list adds that file and no other, and puts
/// it behind the files of its own size.
proof fn insert_adds_one(files: Seq<FileView>, f: FileView, bytes: u64)
    ensures
        insert_by_size(files, f).to_multiset() == files.to_multiset().insert(f),
        of_size(insert_by_size(files, f), bytes) == of_size(files.push(f), bytes),
    decreases files.len(),
{
    broadcast use vstd::seq_lib::group_to_multiset_ensures;

    assert(files.push(f).drop_last() =~= files);
    if files.len() > 0 && files.last().bytes < f.bytes {
        let front = files.drop_last();
        insert_adds_one(front, f, bytes);
        assert(files =~= front.push(files.last()));
        assert(front.push(f).drop_last() =~= front);
        assert(insert_by_size(files, f).drop_last() =~= insert_by_size(front, f));
        assert(insert_by_size(files, f).to_multiset() =~= files.to_multiset().insert(f));
        assert(of_size(front.push(f), bytes) == if f.bytes == bytes {
            of_size(front, bytes).push(f)
        } else {
            of_size(front, bytes)
        });
        assert(of_size(files, bytes) == if files.last().bytes == bytes {
            of_size(front, bytes).push(files.last())
        } else {
            of_size(front, bytes)
        });
    }
}

/// [`by_size`] puts files in order, loses and invents none, and keeps the
/// order of files of one size.
pub proof fn by_size_is_a_stable_sort(files: Seq<FileView>, bytes: u64)
    ensures
        is_by_size(by_size(files)),
        by_size(files).len() == files.len(),
        by_size(files).to_multiset() == files.to_multiset(),
        of_size(by_size(files), bytes) == of_size(files, bytes),
    decreases files.len(),
{
    broadcast use vstd::seq_lib::group_to_multiset_ensures;

    if files.len() > 0 {
        let front = files.drop_last();
        by_size_is_a_stable_sort(front, bytes);
        insert_keeps_order(by_size(front), files.last());
        insert_adds_one(by_size(front), files.last(), bytes);
        assert(files =~= front.push(files.last()));
        assert(by_size(front).push(files.last()).drop_last() =~= by_size(front));
    } else {
        assert(by_size(files) =~= files);
    }
}

/// Files that are in order already stay as they are.
pub proof fn by_size_of_ordered(files: Seq<FileView>)
    requires
        is_by_size(files),
    ensures
        by_size(files) == files,
    decreases files.len(),
{
    if files.len() > 0 {
        let front = files.drop_last();
        assert forall|i: int, j: int| 0 <= i <= j < front.len() implies #[trigger] front[i].bytes
            >= #[trigger] front[j].bytes by {
            assert(files[i].bytes >= files[j].bytes);
        }
        by_size_of_ordered(front);
        if front.len() > 0 {
            assert(files[files.len() - 2].bytes >= files[files.len() - 1].bytes);
        }
        assert(front.push(files.last()) =~= files);
    } else {
        assert(by_size(files) =~= files);
    }
}

/// Cutting an ordered list before a file is set in does not change its first `n` files.
proof fn insert_into_first(files: Seq<FileView>, f: FileView, n: nat)
    requires
        is_by_size(files),
    ensures
        first(insert_by_size(first(files, n), f), n) == first(insert_by_size(files, f), n),
    decreases files.len(),
{
    if files.len() > n {
        let front = files.drop_last();
        assert forall|i: int, j: int| 0 <= i <= j < front.len() implies #[trigger] front[i].bytes
            >= #[trigger] front[j].bytes by {
            assert(files[i].bytes >= files[j].bytes);
        }
        insert_into_first(front, f, n);
        insert_keeps_order(front, f);
        insert_keeps_order(files, f);
        assert(first(files, n) =~= first(front, n));
        if files.last().bytes >= f.bytes {
            if front.len() > 0 {
                assert(files[files.len() - 2].bytes >= files[files.len() - 1].bytes);
            }
            assert(first(insert_by_size(files, f), n) =~= first(insert_by_size(front, f), n));
        } else {
            assert(first(insert_by_size(files, f), n) =~= first(insert_by_size(front, f), n));
        }
    }
}

/// Adding file after file to a list that is always cut to its `cap` largest
/// gives the `cap` largest of all files.
pub proof fn keep_largest_step(files: Seq<FileView>, f: FileView, cap: nat)
    ensures
        keep_largest(first(by_size(files), cap), f, cap) == first(by_size(files.push(f)), cap),
{
    by_size_is_a_stable_sort(files, 0);
    let list = first(by_size(files), cap);
    let all = by_size(files);
    assert forall|i: int, j: int| 0 <= i <= j < list.len() implies #[trigger] list[i].bytes
        >= #[trigger] list[j].bytes by {
        assert(all[i].bytes >= all[j].bytes);
    }
    by_size_of_ordered(list);
    assert(list.push(f).drop_last() =~= list);
    assert(files.push(f).drop_last() =~= files);
    insert_into_first(all, f, cap);
}

/// The list stays in order and never grows beyond `cap`.
pub proof fn keep_largest_is_bounded(files: Seq<FileView>, f: FileView, cap: nat)
    ensures
        is_by_size(keep_largest(files, f, cap)),
        keep_largest(files, f, cap).len() <= cap,
{
    by_size_is_a_stable_sort(files.push(f), 0);
    let all = by_size(files.push(f));
    let list = keep_largest(files, f, cap);
    assert forall|i: int, j: int| 0 <= i <= j < list.len() implies #[trigger] list[i].bytes
        >= #[trigger] list[j].bytes by {
        assert(all[i].bytes >= all[j].bytes);
    }
}

/// The list holds `cap` files, or all where there are fewer; every file that
/// was left out is no larger than any that stayed.
pub proof fn no_larger_file_is_left_out(files: Seq<FileView>, f: FileView, cap: nat)
    ensures
        ({
            let all = by_size(files.push(f));
            let list = keep_largest(files, f, cap);
            &&& list.len() == if files.len() + 1 <= cap {
                files.len() + 1
            } else {
                cap
            }
            &&& all.to_multiset() == files.to_multiset().insert(f)
            &&& forall|i: int| 0 <= i < list.len() ==> #[trigger] list[i] == all[i]
            &&& forall|i: int, j: int|
                0 <= i < list.len() <= j < all.len() ==> #[trigger] list[i].bytes >= #[trigger] all[j].bytes
        }),
{
    broadcast use vstd::seq_lib::group_to_multiset_ensures;

    by_size_is_a_stable_sort(files.push(f), 0);
    let all = by_size(files.push(f));
    let list = keep_largest(files, f, cap);
    assert forall|i: int, j: int| 0 <= i < list.len() <= j < all.len() implies #[trigger] list[i].bytes
        >= #[trigger] all[j].bytes by {
        assert(list[i] == all[i]);
    }
}

} // verus!
