//! The answers to a mention search: workspace files and folders whose
//! names hold the typed letters, ranked and cut to a few.
//!
//! The caller lists the files that a glob of the query matches, walks up
//! the directories of the chosen files, and hands both over.

use crate::mentions::{fuzzy_glob, fuzzy_match_ascii, fuzzy_matches};
use crate::sorting::{
    insert_new_sorted, insert_sorted, keyed_views, lex_lt, sorted, strictly_sorted, Keyed,
};
use crate::text::{
    chars_eq_str, chars_lines, chars_of, chars_split_by, chars_to_ascii_lowercase,
    chars_trim_end_of, class_of, lines_of, split_by, string_of, texts, to_ascii_lowercase, trim,
    trim_chars, trim_end_of, views, CharSet,
};
use vstd::prelude::*;
use vstd::utf8::encode_utf8;

verus! {

#[derive(Clone, Copy, Debug, PartialEq, Eq, Structural)]
pub enum MentionItemKind {
    Folder,
    File,
}

/// One answer to a mention search.
#[derive(Clone, Debug, PartialEq, Eq)]
pub struct MentionItemSnapshot {
    pub id: String,
    pub name: String,
    pub path: String,
    pub kind: MentionItemKind,
}

/// The mathematical value of a `MentionItemSnapshot`.
pub struct MentionItem {
    pub id: Seq<char>,
    pub name: Seq<char>,
    pub path: Seq<char>,
    pub kind: MentionItemKind,
}

impl View for MentionItemSnapshot {
    type V = MentionItem;

    open spec fn view(&self) -> MentionItem {
        MentionItem { id: self.id@, name: self.name@, path: self.path@, kind: self.kind }
    }
}

/// The most lines of the file listing that are looked at.
pub const MAX_RG_LINES: usize = 2000;

/// The most files that are ranked.
pub const MAX_FILES: usize = 200;

/// The most answers that are given.
pub const MAX_ITEMS: usize = 20;

/// The glob for listing the files that may match `query`; none where the
/// query is blank and there is nothing to search.
pub open spec fn query_glob(query: Seq<char>) -> Option<Seq<char>> {
    if trim(query).len() == 0 {
        None
    } else {
        Some(fuzzy_glob(trim(query)))
    }
}

pub fn mention_glob(query: &str) -> (glob: Option<String>)
    ensures
        match glob {
            Some(glob) => query_glob(query@) == Some(glob@),
            None => query_glob(query@) is None,
        },
{
    let chars = chars_of(query);
    let trimmed = trim_chars(&chars);
    if trimmed.len() == 0 {
        return None;
    }
    let text = string_of(&trimmed);
    Some(crate::mentions::fuzzy_glob_pattern(text.as_str()))
}

/// Whether the listing failed, given how the lister ended: it neither
/// succeeded nor ended with the status 1, which says that nothing matched.
pub fn listing_failed(success: bool, code: Option<i32>) -> (failed: bool)
    ensures
        failed == (!success && code != Some(1i32)),
{
    if success {
        return false;
    }
    match code {
        Some(status) => status != 1,
        None => true,
    }
}

/// `s` with every backslash replaced by a slash.
pub open spec fn with_slashes(s: Seq<char>) -> Seq<char> {
    Seq::new(
        s.len(),
        |i: int|
            if s[i] == '\\' {
                '/'
            } else {
                s[i]
            },
    )
}

/// The name at the end of `path`: what stands behind its last slash.
pub open spec fn base_name(path: Seq<char>) -> Seq<char> {
    split_by(path, class_of("/"@)).last()
}

/// The bytes to look for: the query trimmed and in lower case.
pub open spec fn needle_of(query: Seq<char>) -> Seq<u8> {
    encode_utf8(to_ascii_lowercase(trim(query)))
}

/// Whether `name` holds the letters of `query` in order.
pub open spec fn name_matches(query: Seq<char>, name: Seq<char>) -> bool {
    fuzzy_matches(needle_of(query), encode_utf8(name))
}

/// The paths among `lines`: each line that is not blank, trimmed and with
/// slashes for backslashes; no more than `MAX_RG_LINES` of them.
pub open spec fn candidate_paths(lines: Seq<Seq<char>>) -> Seq<Seq<char>>
    decreases lines.len(),
{
    if lines.len() == 0 {
        Seq::empty()
    } else {
        let front = candidate_paths(lines.drop_last());
        if front.len() >= MAX_RG_LINES || trim(lines.last()).len() == 0 {
            front
        } else {
            front.push(with_slashes(trim(lines.last())))
        }
    }
}

/// Those of `paths` whose name matches `query`; no more than `MAX_FILES`
/// of them.
pub open spec fn matched_paths(paths: Seq<Seq<char>>, query: Seq<char>) -> Seq<Seq<char>>
    decreases paths.len(),
{
    if paths.len() == 0 {
        Seq::empty()
    } else {
        let front = matched_paths(paths.drop_last(), query);
        if front.len() >= MAX_FILES || !name_matches(query, base_name(paths.last())) {
            front
        } else {
            front.push(paths.last())
        }
    }
}

/// A path with the key by which files are ranked: its name in lower case.
pub open spec fn ranked(path: Seq<char>) -> (Seq<char>, Seq<char>) {
    (to_ascii_lowercase(base_name(path)), path)
}

pub open spec fn all_ranked(paths: Seq<Seq<char>>) -> Seq<(Seq<char>, Seq<char>)> {
    Seq::new(paths.len(), |i: int| ranked(paths[i]))
}

fn slashes(v: &Vec<char>) -> (out: Vec<char>)
    ensures
        out@ == with_slashes(v@),
{
    let mut out: Vec<char> = Vec::new();
    let mut i: usize = 0;
    while i < v.len()
        invariant
            i <= v.len(),
            out@.len() == i,
            forall|j: int| 0 <= j < i ==> out@[j] == with_slashes(v@)[j],
        decreases v.len() - i,
    {
        let c = v[i];
        out.push(
            if c == '\\' {
                '/'
            } else {
                c
            },
        );
        i = i + 1;
    }
    assert(out@ =~= with_slashes(v@));
    out
}

fn name_of(path: &Vec<char>) -> (name: Vec<char>)
    ensures
        name@ == base_name(path@),
{
    let slash = CharSet::of("/");
    let mut pieces = chars_split_by(path, &slash);
    let ghost all = views(pieces@);
    assert(all[all.len() - 1] == pieces@[pieces@.len() - 1]@);
    match pieces.pop() {
        Some(name) => name,
        None => Vec::new(),
    }
}

fn matches_query(needle: &String, name: &Vec<char>) -> (r: bool)
    ensures
        r == fuzzy_matches(encode_utf8(needle@), encode_utf8(name@)),
{
    let text = string_of(name);
    fuzzy_match_ascii(needle.as_str().as_bytes(), text.as_str().as_bytes())
}

fn needle(query: &str) -> (out: String)
    ensures
        encode_utf8(out@) == needle_of(query@),
{
    let chars = chars_of(query);
    string_of(&chars_to_ascii_lowercase(&trim_chars(&chars)))
}

fn candidates(listing: &str) -> (paths: Vec<Vec<char>>)
    ensures
        views(paths@) == candidate_paths(lines_of(listing@)),
{
    let chars = chars_of(listing);
    let lines = chars_lines(&chars);
    let ghost all = views(lines@);
    let mut paths: Vec<Vec<char>> = Vec::new();
    let mut i: usize = 0;
    assert(all.take(0) =~= Seq::<Seq<char>>::empty());
    assert(views(paths@) =~= Seq::<Seq<char>>::empty());
    while i < lines.len()
        invariant
            i <= lines.len(),
            all == views(lines@),
            views(paths@) == candidate_paths(all.take(i as int)),
        decreases lines.len() - i,
    {
        assert(all.take(i as int + 1).drop_last() =~= all.take(i as int));
        assert(all[i as int] == lines@[i as int]@);
        if paths.len() < MAX_RG_LINES {
            let line = trim_chars(&lines[i]);
            if line.len() > 0 {
                let ghost before = views(paths@);
                paths.push(slashes(&line));
                assert(views(paths@) =~= before.push(with_slashes(line@)));
            }
        }
        i = i + 1;
    }
    assert(all.take(i as int) =~= all);
    paths
}

/// The files to rank, given the listing of the files that the glob of
/// `query` matches: the listed paths whose names hold the letters of the
/// query in order, at most `MAX_FILES` of the first `MAX_RG_LINES`, by
/// name without regard to case and then by path.
pub fn matching_files(listing: &str, query: &str) -> (files: Vec<String>)
    ensures
        sorted(all_ranked(texts(files@))),
        all_ranked(texts(files@)).to_multiset() == all_ranked(
            matched_paths(candidate_paths(lines_of(listing@)), query@),
        ).to_multiset(),
{
    let paths = candidates(listing);
    let wanted = needle(query);
    let ghost all = views(paths@);
    let ghost goal = matched_paths(all, query@);
    let mut ranked_files: Vec<Keyed> = Vec::new();
    let ghost mut taken: Seq<Seq<char>> = Seq::empty();
    let mut i: usize = 0;
    assert(all.take(0) =~= Seq::<Seq<char>>::empty());
    assert(keyed_views(ranked_files@) =~= all_ranked(taken));
    while i < paths.len()
        invariant
            i <= paths.len(),
            all == views(paths@),
            encode_utf8(wanted@) == needle_of(query@),
            taken == matched_paths(all.take(i as int), query@),
            sorted(keyed_views(ranked_files@)),
            ranked_files@.len() == taken.len(),
            keyed_views(ranked_files@).to_multiset() == all_ranked(taken).to_multiset(),
        decreases paths.len() - i,
    {
        assert(all.take(i as int + 1).drop_last() =~= all.take(i as int));
        assert(all[i as int] == paths@[i as int]@);
        if ranked_files.len() < MAX_FILES {
            let name = name_of(&paths[i]);
            if matches_query(&wanted, &name) {
                let entry = Keyed { key: chars_to_ascii_lowercase(&name), text: paths[i].clone() };
                assert(entry.text@ =~= paths@[i as int]@) by {
                    assert(entry.text@.len() == paths@[i as int]@.len());
                }
                insert_sorted(&mut ranked_files, entry);
                proof {
                    let grown = taken.push(all[i as int]);
                    assert(all_ranked(grown) =~= all_ranked(taken).push(ranked(all[i as int])));
                    vstd::seq_lib::to_multiset_build(all_ranked(taken), ranked(all[i as int]));
                    taken = grown;
                }
            }
        }
        i = i + 1;
    }
    assert(all.take(i as int) =~= all);
    assert(taken == goal);
    proof {
        let have = keyed_views(ranked_files@);
        let want = all_ranked(goal);
        have.to_multiset_ensures();
        want.to_multiset_ensures();
        assert forall|j: int| 0 <= j < ranked_files@.len() implies (#[trigger] ranked_files@[j])@
            == ranked(ranked_files@[j].text@) by {
            assert(have[j] == ranked_files@[j]@);
            assert(have.contains(have[j]));
            assert(have.to_multiset().count(have[j]) > 0);
            assert(want.to_multiset().count(have[j]) > 0);
            assert(want.contains(have[j]));
            let at = choose|at: int| 0 <= at < want.len() && want[at] == have[j];
            assert(want[at] == ranked(goal[at]));
        }
    }
    let mut files: Vec<String> = Vec::new();
    let mut k: usize = 0;
    while k < ranked_files.len()
        invariant
            k <= ranked_files.len(),
            files@.len() == k,
            keyed_views(ranked_files@).to_multiset() == all_ranked(goal).to_multiset(),
            sorted(keyed_views(ranked_files@)),
            forall|j: int| 0 <= j < k ==> (#[trigger] files@[j])@ == ranked_files@[j].text@,
            forall|j: int|
                0 <= j < ranked_files@.len() ==> (#[trigger] ranked_files@[j])@ == ranked(
                    ranked_files@[j].text@,
                ),
        decreases ranked_files.len() - k,
    {
        files.push(string_of(&ranked_files[k].text));
        k = k + 1;
    }
    assert(all_ranked(texts(files@)) =~= keyed_views(ranked_files@));
    files
}


/// The folder that a directory stands for: its path without slashes at
/// its end, and one slash.
pub open spec fn folder_of(dir: Seq<char>) -> Seq<char> {
    trim_end_of(dir, class_of("/"@)) + seq!['/']
}

/// The folders to offer among the directories above one file, from the
/// nearest upwards: each whose name matches `query`. The walk ends at the
/// first directory that is empty or `.`.
pub open spec fn chain_folders(chain: Seq<Seq<char>>, query: Seq<char>) -> Set<Seq<char>>
    decreases chain.len(),
{
    if chain.len() == 0 {
        Set::empty()
    } else {
        let dir = with_slashes(chain[0]);
        if dir.len() == 0 || dir == "."@ {
            Set::empty()
        } else {
            let above = chain_folders(chain.drop_first(), query);
            if name_matches(query, base_name(dir)) {
                above.insert(folder_of(dir))
            } else {
                above
            }
        }
    }
}

/// The folders to offer for all files.
pub open spec fn all_folders(chains: Seq<Seq<Seq<char>>>, query: Seq<char>) -> Set<Seq<char>>
    decreases chains.len(),
{
    if chains.len() == 0 {
        Set::empty()
    } else {
        all_folders(chains.drop_last(), query).union(chain_folders(chains.last(), query))
    }
}

/// The views of the directories above each file.
pub open spec fn chains_of(ancestors: Seq<Vec<String>>) -> Seq<Seq<Seq<char>>> {
    Seq::new(ancestors.len(), |i: int| texts(ancestors[i]@))
}

pub open spec fn folder_item(folder: Seq<char>) -> MentionItem {
    MentionItem {
        id: "folder:"@ + folder,
        name: base_name(trim_end_of(folder, class_of("/"@))),
        path: folder,
        kind: MentionItemKind::Folder,
    }
}

pub open spec fn file_item(file: Seq<char>) -> MentionItem {
    MentionItem {
        id: "file:"@ + file,
        name: base_name(file),
        path: file,
        kind: MentionItemKind::File,
    }
}

/// All answers: the folders, then the files.
pub open spec fn all_items(folders: Seq<Seq<char>>, files: Seq<Seq<char>>) -> Seq<MentionItem> {
    Seq::new(folders.len(), |i: int| folder_item(folders[i])) + Seq::new(
        files.len(),
        |i: int| file_item(files[i]),
    )
}

/// The answers that are given: the first `MAX_ITEMS` of all.
pub open spec fn first_items(folders: Seq<Seq<char>>, files: Seq<Seq<char>>) -> Seq<MentionItem> {
    let all = all_items(folders, files);
    if all.len() <= MAX_ITEMS {
        all
    } else {
        all.take(MAX_ITEMS as int)
    }
}

/// Whether `folders` are in dictionary order, none twice.
pub open spec fn in_order(folders: Seq<Seq<char>>) -> bool {
    forall|i: int, j: int| 0 <= i < j < folders.len() ==> lex_lt(folders[i], folders[j])
}

/// The views of a list of answers.
pub open spec fn item_views(items: Seq<MentionItemSnapshot>) -> Seq<MentionItem> {
    Seq::new(items.len(), |i: int| items[i]@)
}

/// The texts of a list of keyed texts.
spec fn keyed_texts(list: Seq<Keyed>) -> Seq<Seq<char>> {
    Seq::new(list.len(), |i: int| list[i].text@)
}

/// Whether `list` holds exactly the folders `found`, each under the empty
/// key.
spec fn holds_folders(list: Seq<Keyed>, found: Set<Seq<char>>) -> bool {
    &&& forall|j: int| 0 <= j < list.len() ==> (#[trigger] list[j]).key@ == Seq::<char>::empty()
    &&& forall|f: Seq<char>|
        found.contains(f) <==> keyed_views(list).to_set().contains((Seq::<char>::empty(), f))
}

fn add_chain_folders(
    list: &mut Vec<Keyed>,
    chain: &Vec<String>,
    wanted: &String,
    query: Ghost<Seq<char>>,
    found: Ghost<Set<Seq<char>>>,
)
    requires
        encode_utf8(wanted@) == needle_of(query@),
        strictly_sorted(keyed_views(old(list)@)),
        holds_folders(old(list)@, found@),
    ensures
        strictly_sorted(keyed_views(final(list)@)),
        holds_folders(final(list)@, found@.union(chain_folders(texts(chain@), query@))),
{
    let slash = CharSet::of("/");
    let ghost all = texts(chain@);
    let ghost mut now = found@;
    let mut j: usize = 0;
    assert(all.skip(0) =~= all);
    loop
        invariant
            j <= chain.len(),
            all == texts(chain@),
            slash@ == class_of("/"@),
            encode_utf8(wanted@) == needle_of(query@),
            strictly_sorted(keyed_views(list@)),
            holds_folders(list@, now),
            now.union(chain_folders(all.skip(j as int), query@)) == found@.union(
                chain_folders(all, query@),
            ),
        ensures
            strictly_sorted(keyed_views(list@)),
            holds_folders(list@, found@.union(chain_folders(all, query@))),
        decreases chain.len() - j,
    {
        if j >= chain.len() {
            assert(now.union(Set::<Seq<char>>::empty()) =~= now);
            break ;
        }
        assert(all.skip(j as int)[0] == chain@[j as int]@);
        assert(all.skip(j as int).drop_first() =~= all.skip(j as int + 1));
        let raw = chars_of(chain[j].as_str());
        let dir = slashes(&raw);
        if dir.len() == 0 || chars_eq_str(&dir, ".") {
            assert(now.union(Set::<Seq<char>>::empty()) =~= now);
            break ;
        }
        let name = name_of(&dir);
        if matches_query(wanted, &name) {
            let mut folder = chars_trim_end_of(&dir, &slash);
            folder.push('/');
            assert(folder@ =~= folder_of(dir@));
            let entry = Keyed { key: Vec::new(), text: folder };
            let ghost before = keyed_views(list@);
            insert_new_sorted(list, entry);
            proof {
                let grown = now.insert(entry.text@);
                let after = keyed_views(list@);
                assert(after.to_set() == before.to_set().insert(entry@));
                assert forall|k: int| 0 <= k < list@.len() implies (#[trigger] list@[k]).key@
                    == Seq::<char>::empty() by {
                    assert(after[k] == list@[k]@);
                    assert(after.contains(after[k]));
                    assert(after.to_set().contains(after[k]));
                    if after[k] != entry@ {
                        assert(before.to_set().contains(after[k]));
                    }
                }
                assert(holds_folders(list@, grown));
                assert(grown.union(chain_folders(all.skip(j as int + 1), query@)) =~= now.union(
                    chain_folders(all.skip(j as int), query@),
                ));
                now = grown;
            }
        }
        j = j + 1;
    }
}

fn item_of(kind: MentionItemKind, path: &Vec<char>) -> (item: MentionItemSnapshot)
    ensures
        item@ == match kind {
            MentionItemKind::Folder => folder_item(path@),
            MentionItemKind::File => file_item(path@),
        },
{
    let path_text = string_of(path);
    match kind {
        MentionItemKind::Folder => {
            let slash = CharSet::of("/");
            let name = name_of(&chars_trim_end_of(path, &slash));
            let mut id = "folder:".to_owned();
            id.append(path_text.as_str());
            MentionItemSnapshot { id, name: string_of(&name), path: path_text, kind }
        },
        MentionItemKind::File => {
            let name = name_of(path);
            let mut id = "file:".to_owned();
            id.append(path_text.as_str());
            MentionItemSnapshot { id, name: string_of(&name), path: path_text, kind }
        },
    }
}

/// The answers to a mention search, given the ranked files and, for each
/// of them, the directories above it from the nearest upwards: first the
/// folders whose names match, in dictionary order and each once, then the
/// files; `MAX_ITEMS` at most.
pub fn mention_items(files: &Vec<String>, ancestors: &Vec<Vec<String>>, query: &str) -> (items: Vec<
    MentionItemSnapshot,
>)
    ensures
        exists|folders: Seq<Seq<char>>|
            in_order(folders) && folders.to_set() == all_folders(chains_of(ancestors@), query@)
                && item_views(items@) == first_items(folders, texts(files@)),
{
    let wanted = needle(query);
    let mut list: Vec<Keyed> = Vec::new();
    let ghost chains = chains_of(ancestors@);
    let mut i: usize = 0;
    assert(chains.take(0) =~= Seq::<Seq<Seq<char>>>::empty());
    assert(keyed_views(list@).to_set() =~= Set::<(Seq<char>, Seq<char>)>::empty());
    while i < ancestors.len()
        invariant
            i <= ancestors.len(),
            chains == chains_of(ancestors@),
            encode_utf8(wanted@) == needle_of(query@),
            strictly_sorted(keyed_views(list@)),
            holds_folders(list@, all_folders(chains.take(i as int), query@)),
        decreases ancestors.len() - i,
    {
        assert(chains.take(i as int + 1).drop_last() =~= chains.take(i as int));
        assert(chains[i as int] == texts(ancestors@[i as int]@));
        add_chain_folders(
            &mut list,
            &ancestors[i],
            &wanted,
            Ghost(query@),
            Ghost(all_folders(chains.take(i as int), query@)),
        );
        i = i + 1;
    }
    assert(chains.take(i as int) =~= chains);
    let ghost folders = keyed_texts(list@);
    let ghost found = all_folders(chains, query@);
    proof {
        let keyed = keyed_views(list@);
        assert forall|a: int, b: int| 0 <= a < b < folders.len() implies lex_lt(
            folders[a],
            folders[b],
        ) by {
            assert(crate::sorting::keyed_lt(keyed[a], keyed[b]));
            assert(list@[a].key@ == Seq::<char>::empty());
            assert(list@[b].key@ == Seq::<char>::empty());
        }
        assert forall|f: Seq<char>| folders.to_set().contains(f) <==> found.contains(f) by {
            if folders.contains(f) {
                let at = choose|at: int| 0 <= at < folders.len() && folders[at] == f;
                assert(keyed[at] == (Seq::<char>::empty(), f));
                assert(keyed.contains(keyed[at]));
            }
            if found.contains(f) {
                assert(keyed.contains((Seq::<char>::empty(), f)));
                let at = choose|at: int|
                    0 <= at < keyed.len() && keyed[at] == (Seq::<char>::empty(), f);
                assert(folders[at] == f);
            }
        }
        assert(folders.to_set() =~= found);
    }
    let ghost all = all_items(folders, texts(files@));
    let mut items: Vec<MentionItemSnapshot> = Vec::new();
    let mut k: usize = 0;
    while k < list.len() && items.len() < MAX_ITEMS
        invariant
            k <= list.len(),
            items@.len() == k,
            k <= MAX_ITEMS,
            folders == keyed_texts(list@),
            all == all_items(folders, texts(files@)),
            item_views(items@) == all.take(k as int),
        decreases list.len() - k,
    {
        let ghost before = item_views(items@);
        items.push(item_of(MentionItemKind::Folder, &list[k].text));
        assert(item_views(items@) =~= before.push(all[k as int]));
        assert(all.take(k as int + 1) =~= all.take(k as int).push(all[k as int]));
        k = k + 1;
    }
    let mut m: usize = 0;
    if k == list.len() {
        while m < files.len() && items.len() < MAX_ITEMS
            invariant
                k == list.len(),
                m <= files.len(),
                items@.len() == k + m,
                k + m <= MAX_ITEMS,
                folders == keyed_texts(list@),
                all == all_items(folders, texts(files@)),
                item_views(items@) == all.take(k + m),
            decreases files.len() - m,
        {
            let ghost before = item_views(items@);
            let path = chars_of(files[m].as_str());
            items.push(item_of(MentionItemKind::File, &path));
            assert(all[k + m] == file_item(texts(files@)[m as int]));
            assert(item_views(items@) =~= before.push(all[k + m]));
            assert(all.take(k + m + 1) =~= all.take(k + m).push(all[k + m]));
            m = m + 1;
        }
    }
    assert(item_views(items@) =~= first_items(folders, texts(files@))) by {
        if all.len() <= MAX_ITEMS {
            assert(all.take(all.len() as int) =~= all);
        }
    }
    items
}

} // verus!
