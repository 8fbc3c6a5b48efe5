//! Dictionaries and the learning cache: what is loaded, and from where.

use vstd::prelude::*;

use crate::engine::{Dictionaries, InputMethodEngine};
use crate::init::{AssetPlan, InitAssets};

verus! {

/// The file name of the system dictionary in the data directory.
pub const SYSTEM_DICTIONARY_FILE: &'static str = "dict.bin";

/// Where the system dictionary is.
#[derive(Debug, PartialEq, Eq)]
pub enum DictionaryLocation {
    /// The configured path.
    Configured(String),
    /// [`SYSTEM_DICTIONARY_FILE`] in the data directory.
    DataDir,
}

/// What came of loading a file.
#[derive(Debug)]
pub enum FileLoad<T> {
    /// There is no such file.
    Absent,
    /// The file could not be loaded.
    Failed,
    Loaded(T),
}

/// A file of the user dictionary directory.
#[derive(Debug)]
pub struct DictionaryFile<D> {
    /// The bytes of the file name.
    pub name: Vec<u8>,
    pub load: Result<D, String>,
}

/// What was loaded, if anything.
pub open spec fn loaded<T>(load: FileLoad<T>) -> Option<T> {
    match load {
        FileLoad::Loaded(value) => Some(value),
        _ => None,
    }
}

/// The system dictionary is at the configured path, or in the data directory
/// where none is configured.
pub open spec fn is_located(
    dict_path: Option<&str>,
    has_data_dir: bool,
    location: Option<DictionaryLocation>,
) -> bool {
    match dict_path {
        Some(path) => location matches Some(DictionaryLocation::Configured(configured))
            && configured@ == path@,
        None => if has_data_dir {
            location == Some(DictionaryLocation::DataDir)
        } else {
            location is None
        },
    }
}

/// The system dictionary is what was loaded from its location.
pub open spec fn may_load_system<D, F: FnOnce(DictionaryLocation) -> FileLoad<D>>(
    dict_path: Option<&str>,
    has_data_dir: bool,
    load: F,
    dictionary: Option<D>,
) -> bool {
    if dict_path is None && !has_data_dir {
        dictionary is None
    } else {
        exists|location: DictionaryLocation, read: FileLoad<D>|
            is_located(dict_path, has_data_dir, Some(location)) && #[trigger] load.ensures(
                (location,),
                read,
            ) && dictionary == loaded(read)
    }
}

/// The learning cache is the stored one, or an empty one where that cannot be
/// loaded; there is none where learning is off.
pub open spec fn may_load_learning<
    L,
    F: FnOnce(usize) -> FileLoad<L>,
    N: FnOnce(usize) -> L,
>(enabled: bool, max_entries: usize, load: F, new_cache: N, cache: Option<L>) -> bool {
    if !enabled {
        cache is None
    } else {
        exists|read: FileLoad<L>| #[trigger]
            load.ensures((max_entries,), read) && match read {
                FileLoad::Loaded(stored) => cache == Some(stored),
                _ => cache matches Some(empty) && new_cache.ensures((max_entries,), empty),
            }
    }
}

/// Names are ordered by their bytes, and a name comes before those that it
/// begins.
pub open spec fn name_before(a: Seq<u8>, b: Seq<u8>) -> bool
    decreases a.len(),
{
    if b.len() == 0 {
        false
    } else if a.len() == 0 {
        true
    } else if a[0] != b[0] {
        a[0] < b[0]
    } else {
        name_before(a.drop_first(), b.drop_first())
    }
}

/// No file comes before one with an earlier name.
pub open spec fn sorted_by_name<D>(files: Seq<DictionaryFile<D>>) -> bool {
    forall|i: int, j: int|
        0 <= i < j < files.len() ==> !name_before(
            (#[trigger] files[j]).name@,
            (#[trigger] files[i]).name@,
        )
}

/// The same files, sorted by name.
pub open spec fn is_load_order<D>(
    files: Seq<DictionaryFile<D>>,
    order: Seq<DictionaryFile<D>>,
) -> bool {
    order.to_multiset() == files.to_multiset() && sorted_by_name(order)
}

/// The dictionaries that could be loaded, in the order of their files.
pub open spec fn usable<D>(files: Seq<DictionaryFile<D>>) -> Seq<D> {
    files.filter_map(
        |file: DictionaryFile<D>|
            match file.load {
                Ok(dictionary) => Some(dictionary),
                Err(_) => None,
            },
    )
}

/// None of the files could be loaded.
pub open spec fn none_usable<D>(files: Seq<DictionaryFile<D>>) -> bool {
    forall|i: int| 0 <= i < files.len() ==> (#[trigger] files[i]).load is Err
}

/// The dictionaries of the files, sorted by file name.
pub open spec fn is_dictionaries_of<D>(files: Seq<DictionaryFile<D>>, dictionaries: Seq<D>) -> bool {
    exists|order: Seq<DictionaryFile<D>>| #[trigger]
        is_load_order(files, order) && dictionaries == usable(order)
}

/// The merged dictionary, if merging succeeded and there was something to
/// merge.
pub open spec fn merged<D>(result: Result<Option<D>, String>) -> Option<D> {
    match result {
        Ok(dictionary) => dictionary,
        Err(_) => None,
    }
}

/// The dictionary may have come out of merging those of the files.
pub open spec fn may_merge<D, M: FnOnce(Vec<D>) -> Result<Option<D>, String>>(
    files: Seq<DictionaryFile<D>>,
    merge: M,
    dictionary: Option<D>,
) -> bool {
    exists|dictionaries: Vec<D>, result: Result<Option<D>, String>|
        is_dictionaries_of(files, dictionaries@) && #[trigger] merge.ensures(
            (dictionaries,),
            result,
        ) && dictionary == merged(result)
}

proof fn lemma_name_order(a: Seq<u8>, b: Seq<u8>)
    ensures
        name_before(a, b) ==> !name_before(b, a),
        !name_before(a, b) && !name_before(b, a) ==> a == b,
    decreases a.len(),
{
    if a.len() > 0 && b.len() > 0 {
        if a[0] == b[0] {
            lemma_name_order(a.drop_first(), b.drop_first());
            if a.drop_first() == b.drop_first() {
                assert(a =~= seq![a[0]] + a.drop_first());
                assert(b =~= seq![b[0]] + b.drop_first());
            }
        }
    } else {
        assert(a.len() == 0 && b.len() == 0 ==> a =~= b);
    }
}

proof fn lemma_name_before_not_after(a: Seq<u8>, b: Seq<u8>, c: Seq<u8>)
    requires
        name_before(a, b),
        !name_before(c, b),
    ensures
        name_before(a, c),
    decreases a.len(),
{
    if a.len() > 0 && c.len() > 0 && a[0] == b[0] && c[0] == b[0] {
        lemma_name_before_not_after(a.drop_first(), b.drop_first(), c.drop_first());
    }
}

proof fn lemma_none_usable<D>(files: Seq<DictionaryFile<D>>)
    ensures
        none_usable(files) == (usable(files).len() == 0),
    decreases files.len(),
{
    if files.len() > 0 {
        let rest = files.drop_last();
        lemma_none_usable(rest);
        if none_usable(files) {
            assert(files.last().load is Err);
            assert forall|i: int| 0 <= i < rest.len() implies (#[trigger] rest[i]).load is Err by {
                assert(rest[i] == files[i]);
            }
        }
        if usable(files).len() == 0 {
            assert forall|i: int| 0 <= i < files.len() implies (
            #[trigger] files[i]).load is Err by {
                if i < rest.len() {
                    assert(rest[i] == files[i]);
                }
            }
        }
    }
}

proof fn lemma_same_files<D>(files: Seq<DictionaryFile<D>>, order: Seq<DictionaryFile<D>>)
    requires
        order.to_multiset() == files.to_multiset(),
    ensures
        order.len() == files.len(),
        forall|file: DictionaryFile<D>| #[trigger] order.contains(file) <==> files.contains(file),
        none_usable(order) == none_usable(files),
{
    vstd::seq_lib::to_multiset_len(files);
    vstd::seq_lib::to_multiset_len(order);
    assert forall|file: DictionaryFile<D>| #[trigger]
        order.contains(file) <==> files.contains(file) by {
        vstd::seq_lib::to_multiset_contains(files, file);
        vstd::seq_lib::to_multiset_contains(order, file);
    }
    assert forall|i: int| 0 <= i < files.len() implies order.contains(#[trigger] files[i]) by {
        assert(files.contains(files[i]));
    }
    assert forall|i: int| 0 <= i < order.len() implies files.contains(#[trigger] order[i]) by {
        assert(order.contains(order[i]));
    }
}

/// Whether a name comes before another.
fn comes_before(a: &Vec<u8>, b: &Vec<u8>) -> (r: bool)
    ensures
        r == name_before(a@, b@),
{
    let mut i: usize = 0;
    proof {
        assert(a@.skip(0) =~= a@);
        assert(b@.skip(0) =~= b@);
    }
    while i < a.len() && i < b.len() && a[i] == b[i]
        invariant
            i <= a@.len(),
            i <= b@.len(),
            name_before(a@, b@) == name_before(a@.skip(i as int), b@.skip(i as int)),
        decreases a@.len() - i,
    {
        proof {
            assert(a@.skip(i as int).drop_first() =~= a@.skip(i as int + 1));
            assert(b@.skip(i as int).drop_first() =~= b@.skip(i as int + 1));
        }
        i = i + 1;
    }
    if i == b.len() {
        false
    } else if i == a.len() {
        true
    } else {
        a[i] < b[i]
    }
}

/// Sorts files by name.
fn sort_by_name<D>(files: Vec<DictionaryFile<D>>) -> (r: Vec<DictionaryFile<D>>)
    ensures
        is_load_order(files@, r@),
{
    let mut order: Vec<DictionaryFile<D>> = Vec::new();
    proof {
        assert(files@.take(0) =~= order@);
    }
    for file in it: files
        invariant
            it.seq() == files@,
            is_load_order(files@.take(it.index() as int), order@),
    {
        let mut at: usize = 0;
        while at < order.len() && !comes_before(&file.name, &order[at].name)
            invariant
                at <= order@.len(),
                forall|k: int|
                    0 <= k < at ==> !name_before(file.name@, (#[trigger] order@[k]).name@),
            decreases order@.len() - at,
        {
            at = at + 1;
        }
        proof {
            let done = files@.take(it.index() as int);
            let before = order@;
            let after = before.insert(at as int, file);
            assert(files@.take(it.index() as int + 1) =~= done.push(file));
            vstd::seq_lib::to_multiset_build(done, file);
            vstd::seq_lib::to_multiset_insert(before, at as int, file);
            assert forall|i: int, j: int| 0 <= i < j < after.len() implies !name_before(
                (#[trigger] after[j]).name@,
                (#[trigger] after[i]).name@,
            ) by {
                if i == at {
                    let next = before[at as int].name@;
                    if j > at + 1 {
                        assert(!name_before(before[j - 1].name@, before[at as int].name@));
                    } else {
                        lemma_name_order(next, next);
                    }
                    lemma_name_before_not_after(file.name@, next, after[j].name@);
                    lemma_name_order(file.name@, after[j].name@);
                } else if j == at {
                    assert(!name_before(file.name@, before[i].name@));
                } else {
                    let i0 = if i < at {
                        i
                    } else {
                        i - 1
                    };
                    let j0 = if j < at {
                        j
                    } else {
                        j - 1
                    };
                    assert(!name_before(before[j0].name@, before[i0].name@));
                }
            }
        }
        order.insert(at, file);
    }
    proof {
        assert(files@.take(files@.len() as int) =~= files@);
    }
    order
}

/// The dictionaries that could be loaded, sorted by file name. Those that
/// could not are left out.
pub fn load_order<D>(files: Vec<DictionaryFile<D>>) -> (r: Vec<D>)
    ensures
        is_dictionaries_of(files@, r@),
{
    let order = sort_by_name(files);
    let mut dictionaries: Vec<D> = Vec::new();
    for file in it: order
        invariant
            it.seq() == order@,
            dictionaries@ == usable(order@.take(it.index() as int)),
    {
        proof {
            let next = order@.take(it.index() as int + 1);
            assert(next.drop_last() == order@.take(it.index() as int));
            assert(next.last() == file);
        }
        match file.load {
            Ok(dictionary) => dictionaries.push(dictionary),
            Err(_error) => {},
        }
    }
    proof {
        assert(order@.take(order@.len() as int) == order@);
    }
    dictionaries
}

/// Where the system dictionary is, if that is known.
pub fn system_dictionary_location(dict_path: Option<&str>, has_data_dir: bool) -> (r: Option<
    DictionaryLocation,
>)
    ensures
        is_located(dict_path, has_data_dir, r),
{
    match dict_path {
        Some(path) => Some(DictionaryLocation::Configured(path.to_owned())),
        None => if has_data_dir {
            Some(DictionaryLocation::DataDir)
        } else {
            None
        },
    }
}

/// What was loaded, if anything.
fn loaded_value<T>(load: FileLoad<T>) -> (r: Option<T>)
    ensures
        r == loaded(load),
{
    match load {
        FileLoad::Loaded(value) => Some(value),
        _ => None,
    }
}

/// Loads the system dictionary. Without one the engine works on.
pub fn load_system_dictionary<D, F: FnOnce(DictionaryLocation) -> FileLoad<D>>(
    dict_path: Option<&str>,
    has_data_dir: bool,
    load: F,
) -> (r: Option<D>)
    requires
        forall|location: DictionaryLocation| #[trigger] load.requires((location,)),
    ensures
        may_load_system(dict_path, has_data_dir, load, r),
{
    match system_dictionary_location(dict_path, has_data_dir) {
        Some(location) => loaded_value(load(location)),
        None => None,
    }
}

/// The learning cache to start with, given what came of loading the stored
/// one.
pub fn stored_or_new_cache<L, N: FnOnce(usize) -> L>(
    read: FileLoad<L>,
    max_entries: usize,
    new_cache: N,
) -> (r: L)
    requires
        new_cache.requires((max_entries,)),
    ensures
        match read {
            FileLoad::Loaded(stored) => r == stored,
            _ => new_cache.ensures((max_entries,), r),
        },
{
    match read {
        FileLoad::Loaded(stored) => stored,
        _ => new_cache(max_entries),
    }
}

/// Loads the learning cache, or starts an empty one; none if learning is off.
pub fn load_learning_cache<L, F: FnOnce(usize) -> FileLoad<L>, N: FnOnce(usize) -> L>(
    enabled: bool,
    max_entries: usize,
    load: F,
    new_cache: N,
) -> (r: Option<L>)
    requires
        load.requires((max_entries,)),
        new_cache.requires((max_entries,)),
    ensures
        may_load_learning(enabled, max_entries, load, new_cache, r),
{
    if !enabled {
        return None;
    }
    Some(stored_or_new_cache(load(max_entries), max_entries, new_cache))
}

fn merge_dictionaries<D, M: FnOnce(Vec<D>) -> Result<Option<D>, String>>(
    dictionaries: Vec<D>,
    merge: M,
) -> (r: Option<D>)
    requires
        merge.requires((dictionaries,)),
    ensures
        exists|result: Result<Option<D>, String>| #[trigger]
            merge.ensures((dictionaries,), result) && r == merged(result),
{
    match merge(dictionaries) {
        Ok(dictionary) => dictionary,
        Err(_error) => None,
    }
}

/// Merges the dictionaries of the user's files; those with earlier names come
/// first. Without files there is nothing to merge.
pub fn load_user_dictionaries<D, M: FnOnce(Vec<D>) -> Result<Option<D>, String>>(
    files: Vec<DictionaryFile<D>>,
    merge: M,
) -> (r: Option<D>)
    requires
        forall|dictionaries: Vec<D>| #[trigger] merge.requires((dictionaries,)),
    ensures
        if files@.len() == 0 {
            r is None
        } else {
            may_merge(files@, merge, r)
        },
{
    if files.len() == 0 {
        return None;
    }
    merge_dictionaries(load_order(files), merge)
}

/// Loads one asset, if the plan has it.
fn load_if<T, F: FnOnce() -> Option<T>>(wanted: bool, load: F) -> (r: Option<T>)
    requires
        load.requires(()),
    ensures
        if wanted {
            load.ensures((), r)
        } else {
            r is None
        },
{
    if wanted {
        load()
    } else {
        None
    }
}

/// Loads what the plan has, and nothing else.
pub fn load_assets<
    D,
    L,
    S: FnOnce() -> Option<D>,
    U: FnOnce() -> Option<D>,
    C: FnOnce() -> Option<L>,
>(plan: AssetPlan, system: S, user: U, learning: C) -> (r: InitAssets<D, L>)
    requires
        system.requires(()),
        user.requires(()),
        learning.requires(()),
    ensures
        if plan.load_system {
            system.ensures((), r.system)
        } else {
            r.system is None
        },
        if plan.load_user {
            user.ensures((), r.user)
        } else {
            r.user is None
        },
        if plan.load_learning {
            learning.ensures((), r.learning)
        } else {
            r.learning is None
        },
{
    InitAssets {
        system: load_if(plan.load_system, system),
        user: load_if(plan.load_user, user),
        learning: load_if(plan.load_learning, learning),
    }
}

impl<D, L> InputMethodEngine<D, L> {
    /// Loads the system dictionary, unless there is one.
    pub fn init_system_dictionary<F: FnOnce(DictionaryLocation) -> FileLoad<D>>(
        &mut self,
        dict_path: Option<&str>,
        has_data_dir: bool,
        load: F,
    )
        requires
            forall|location: DictionaryLocation| #[trigger] load.requires((location,)),
        ensures
            *final(self) == (InputMethodEngine {
                dicts: Dictionaries { system: final(self).dicts.system, ..old(self).dicts },
                ..*old(self)
            }),
            match old(self).dicts.system {
                Some(_) => final(self).dicts.system == old(self).dicts.system,
                None => may_load_system(
                    dict_path,
                    has_data_dir,
                    load,
                    final(self).dicts.system,
                ),
            },
    {
        if self.dicts.system.is_some() {
            return ;
        }
        self.dicts.system = load_system_dictionary(dict_path, has_data_dir, load);
    }

    /// Loads the learning cache or starts an empty one, unless there is one or
    /// learning is off.
    pub fn init_learning_cache<F: FnOnce(usize) -> FileLoad<L>, N: FnOnce(usize) -> L>(
        &mut self,
        enabled: bool,
        max_entries: usize,
        load: F,
        new_cache: N,
    )
        requires
            load.requires((max_entries,)),
            new_cache.requires((max_entries,)),
        ensures
            *final(self) == (InputMethodEngine { learning: final(self).learning, ..*old(self) }),
            match old(self).learning {
                Some(_) => final(self).learning == old(self).learning,
                None => may_load_learning(
                    enabled,
                    max_entries,
                    load,
                    new_cache,
                    final(self).learning,
                ),
            },
    {
        if self.learning.is_some() {
            return ;
        }
        self.learning = load_learning_cache(enabled, max_entries, load, new_cache);
    }

    /// Merges the dictionaries of the user's files, unless there is a user
    /// dictionary. Files that could not be loaded are left out; the others
    /// come in the order of their names, earlier ones first.
    pub fn init_user_dictionaries<M: FnOnce(Vec<D>) -> Result<Option<D>, String>>(
        &mut self,
        files: Vec<DictionaryFile<D>>,
        merge: M,
    )
        requires
            forall|dictionaries: Vec<D>| #[trigger] merge.requires((dictionaries,)),
        ensures
            *final(self) == (InputMethodEngine {
                dicts: Dictionaries { user: final(self).dicts.user, ..old(self).dicts },
                ..*old(self)
            }),
            match old(self).dicts.user {
                Some(_) => final(self).dicts.user == old(self).dicts.user,
                None => if none_usable(files@) {
                    final(self).dicts.user is None
                } else {
                    may_merge(files@, merge, final(self).dicts.user)
                },
            },
    {
        if self.dicts.user.is_some() {
            return ;
        }
        let dictionaries = load_order(files);
        proof {
            let order = choose|order: Seq<DictionaryFile<D>>| #[trigger]
                is_load_order(files@, order) && dictionaries@ == usable(order);
            lemma_none_usable(order);
            lemma_same_files(files@, order);
        }
        if dictionaries.len() == 0 {
            return ;
        }
        self.dicts.user = merge_dictionaries(dictionaries, merge);
    }
}

/// File names have one order: of two different names one comes first.
pub proof fn law_names_are_ordered(a: Seq<u8>, b: Seq<u8>, c: Seq<u8>)
    ensures
        !name_before(a, a),
        a != b ==> name_before(a, b) != name_before(b, a),
        name_before(a, b) && name_before(b, c) ==> name_before(a, c),
{
    lemma_name_order(a, a);
    lemma_name_order(a, b);
    lemma_name_order(b, c);
    if name_before(a, b) && name_before(b, c) {
        lemma_name_before_not_after(a, b, c);
    }
}

/// Files with different names have one load order, so the same directory
/// always gives the same dictionaries.
pub proof fn law_load_order_is_unique<D>(
    files: Seq<DictionaryFile<D>>,
    first: Seq<DictionaryFile<D>>,
    second: Seq<DictionaryFile<D>>,
)
    requires
        forall|i: int, j: int|
            0 <= i < j < files.len() ==> (#[trigger] files[i]).name@ != (#[trigger] files[j]).name@,
        is_load_order(files, first),
        is_load_order(files, second),
    ensures
        first == second,
{
    lemma_same_files(files, first);
    assert forall|x: DictionaryFile<D>, y: DictionaryFile<D>|
        first.contains(x) && first.contains(y) && x.name@ == y.name@ implies x == y by {
        let i = choose|i: int| 0 <= i < files.len() && files[i] == x;
        let j = choose|j: int| 0 <= j < files.len() && files[j] == y;
        if i < j {
            assert(files[i].name@ != files[j].name@);
        }
        if j < i {
            assert(files[j].name@ != files[i].name@);
        }
    }
    lemma_sorted_once(first, second);
}

proof fn lemma_sorted_once<D>(first: Seq<DictionaryFile<D>>, second: Seq<DictionaryFile<D>>)
    requires
        first.to_multiset() == second.to_multiset(),
        sorted_by_name(first),
        sorted_by_name(second),
        forall|x: DictionaryFile<D>, y: DictionaryFile<D>|
            first.contains(x) && first.contains(y) && x.name@ == y.name@ ==> x == y,
    ensures
        first == second,
    decreases first.len(),
{
    lemma_same_files(second, first);
    if first.len() == 0 {
        assert(first =~= second);
    } else {
        let (a, b) = (first[0], second[0]);
        assert(first.contains(a) && second.contains(b));
        assert(first.contains(b) && second.contains(a));
        let k = choose|k: int| 0 <= k < first.len() && first[k] == b;
        let m = choose|m: int| 0 <= m < second.len() && second[m] == a;
        lemma_name_order(a.name@, a.name@);
        lemma_name_order(b.name@, b.name@);
        assert(!name_before(first[k].name@, first[0].name@));
        assert(!name_before(second[m].name@, second[0].name@));
        lemma_name_order(a.name@, b.name@);
        assert(a == b);
        let (rest, other) = (first.drop_first(), second.drop_first());
        assert(first.remove(0) =~= rest);
        assert(second.remove(0) =~= other);
        vstd::seq_lib::to_multiset_remove(first, 0);
        vstd::seq_lib::to_multiset_remove(second, 0);
        assert forall|x: DictionaryFile<D>, y: DictionaryFile<D>|
            rest.contains(x) && rest.contains(y) && x.name@ == y.name@ implies x == y by {
            let i = choose|i: int| 0 <= i < rest.len() && rest[i] == x;
            let j = choose|j: int| 0 <= j < rest.len() && rest[j] == y;
            assert(first[i + 1] == x && first[j + 1] == y);
            assert(first.contains(x) && first.contains(y));
        }
        lemma_sorted_once(rest, other);
        assert(first =~= seq![a] + rest);
        assert(second =~= seq![b] + other);
    }
}

} // verus!
