//! The overlay filesystem: a read-only lower tree and a read-write upper
//! tree seen as one. Upper entries shadow lower ones of the same name;
//! a whiteout (an upper entry named `.wh.` and the name) hides a lower one.

use vstd::prelude::*;
use vstd::string::StringSliceAdditionalSpecFns;

verus! {

/// File type of a regular file.
pub const S_IFREG_CHIRHO: u32 = 0o100000;
/// File type of a directory.
pub const S_IFDIR_CHIRHO: u32 = 0o040000;
pub const ENOENT_OVL_CHIRHO: i64 = 2;
pub const EINVAL_OVL_CHIRHO: i64 = 22;

/// Which layer a file of the merged view comes from.
#[derive(Debug, Clone, Copy, PartialEq, Eq, Structural)]
pub enum OverlayOriginChirho {
    /// The read-only lower layer.
    LowerChirho,
    /// The read-write upper layer.
    UpperChirho,
}

/// An entry of one layer: a file, a directory or a whiteout.
#[derive(Debug)]
pub struct LayerEntryChirho {
    pub name_chirho: String,
    /// File type and permissions.
    pub mode_chirho: u32,
    pub size_chirho: u64,
    /// Content of a regular file.
    pub content_chirho: Vec<u8>,
    /// Entries of a directory, in insertion order.
    pub children_chirho: Vec<LayerEntryChirho>,
    /// The entry marks a deleted lower file.
    pub is_whiteout_chirho: bool,
}

/// An overlay: its two layers' roots.
#[derive(Debug)]
pub struct OverlayFsChirho {
    pub lower_chirho: LayerEntryChirho,
    pub upper_chirho: LayerEntryChirho,
}

/// The prefix of a whiteout's name.
pub open spec fn wh_prefix() -> Seq<char> {
    seq!['.', 'w', 'h', '.']
}

/// The name starts with the whiteout prefix.
pub open spec fn is_wh(s: Seq<char>) -> bool {
    s.len() >= 4 && s.subrange(0, 4) == wh_prefix()
}

/// The name of the whiteout for `n`.
pub open spec fn wh_name(n: Seq<char>) -> Seq<char> {
    wh_prefix() + n
}

/// The components of a path: the pieces between slashes that are not
/// empty, from position `i` on, where `cur` is the piece read so far.
pub open spec fn split_from(p: Seq<char>, i: int, cur: Seq<char>) -> Seq<Seq<char>>
    decreases p.len() - i,
{
    if i >= p.len() {
        if cur.len() > 0 { seq![cur] } else { Seq::empty() }
    } else if p[i] == '/' {
        (if cur.len() > 0 { seq![cur] } else { Seq::<Seq<char>>::empty() }) + split_from(p, i + 1, Seq::empty())
    } else {
        split_from(p, i + 1, cur.push(p[i]))
    }
}

/// The components of the path `p`.
pub open spec fn path_components(p: Seq<char>) -> Seq<Seq<char>> {
    split_from(p, 0, Seq::empty())
}

/// The names of a list of strings.
pub open spec fn names_of(v: Seq<String>) -> Seq<Seq<char>> {
    v.map_values(|s: String| s@)
}

/// The position of the first entry named `name`, -1 when there is none.
pub open spec fn find_named(s: Seq<LayerEntryChirho>, name: Seq<char>) -> int
    decreases s.len(),
{
    if s.len() == 0 {
        -1
    } else if s[0].name_chirho@ == name {
        0
    } else {
        let k = find_named(s.drop_first(), name);
        if k < 0 { -1 } else { k + 1 }
    }
}

/// The entry the components `cs` lead to from `e`, each step taking the
/// first child of that name.
pub open spec fn walk(e: LayerEntryChirho, cs: Seq<Seq<char>>) -> Option<LayerEntryChirho>
    decreases cs.len(),
{
    if cs.len() == 0 {
        Some(e)
    } else {
        let k = find_named(e.children_chirho@, cs[0]);
        if k < 0 { None } else { walk(e.children_chirho@[k], cs.drop_first()) }
    }
}

/// The entry the merged view shows at `cs`: the upper one unless it is a
/// whiteout; else none when the upper parent holds a whiteout for it;
/// else the lower one.
pub open spec fn lookup_spec(fs: OverlayFsChirho, cs: Seq<Seq<char>>) -> Option<(LayerEntryChirho, OverlayOriginChirho)> {
    match walk(fs.upper_chirho, cs) {
        Some(e) => if e.is_whiteout_chirho { None } else { Some((e, OverlayOriginChirho::UpperChirho)) },
        None => {
            if cs.len() > 0 && (walk(fs.upper_chirho, cs.drop_last()) matches Some(p)
                && find_named(p.children_chirho@, wh_name(cs.last())) >= 0) {
                None
            } else {
                match walk(fs.lower_chirho, cs) {
                    Some(e) => Some((e, OverlayOriginChirho::LowerChirho)),
                    None => None,
                }
            }
        },
    }
}

proof fn lemma_find_named_range(s: Seq<LayerEntryChirho>, name: Seq<char>)
    ensures
        -1 <= find_named(s, name) < s.len(),
        find_named(s, name) >= 0 ==> s[find_named(s, name)].name_chirho@ == name,
        find_named(s, name) >= 0 ==> forall|j: int| 0 <= j < find_named(s, name) ==> s[j].name_chirho@ != name,
        find_named(s, name) < 0 ==> forall|j: int| 0 <= j < s.len() ==> s[j].name_chirho@ != name,
    decreases s.len(),
{
    if s.len() > 0 {
        lemma_find_named_range(s.drop_first(), name);
        if s[0].name_chirho@ != name {
            assert forall|j: int| 1 <= j < s.len() implies s[j] == s.drop_first()[j - 1] by {}
        }
    }
}

/// The position of the first child named like `name`.
fn find_child_index_chirho(children_chirho: &Vec<LayerEntryChirho>, name_chirho: &String) -> (r: Option<usize>)
    ensures
        r matches Some(k) ==> k as int == find_named(children_chirho@, name_chirho@) && k < children_chirho@.len(),
        r is None ==> find_named(children_chirho@, name_chirho@) == -1,
{
    proof { lemma_find_named_range(children_chirho@, name_chirho@); }
    let mut i_chirho: usize = 0;
    while i_chirho < children_chirho.len()
        invariant
            i_chirho <= children_chirho@.len(),
            forall|j: int| 0 <= j < i_chirho ==> children_chirho@[j].name_chirho@ != name_chirho@,
            -1 <= find_named(children_chirho@, name_chirho@) < children_chirho@.len(),
            find_named(children_chirho@, name_chirho@) >= 0 ==> children_chirho@[find_named(children_chirho@, name_chirho@)].name_chirho@ == name_chirho@,
            find_named(children_chirho@, name_chirho@) >= 0 ==> forall|j: int| 0 <= j < find_named(children_chirho@, name_chirho@)
                ==> children_chirho@[j].name_chirho@ != name_chirho@,
            find_named(children_chirho@, name_chirho@) < 0 ==> forall|j: int| 0 <= j < children_chirho@.len()
                ==> children_chirho@[j].name_chirho@ != name_chirho@,
        decreases children_chirho@.len() - i_chirho,
    {
        if children_chirho[i_chirho].name_chirho == *name_chirho {
            return Some(i_chirho);
        }
        i_chirho = i_chirho + 1;
    }
    None
}

/// The components of `path`, as `path_components` says.
pub fn split_path_chirho(path_chirho: &str) -> (r: Vec<String>)
    ensures
        names_of(r@) == path_components(path_chirho@),
{
    let n_chirho = path_chirho.unicode_len();
    let mut out_chirho: Vec<String> = Vec::new();
    let mut start_chirho: usize = 0;
    let mut i_chirho: usize = 0;
    proof {
        assert(path_chirho@.subrange(0, 0) =~= Seq::<char>::empty());
        assert(names_of(out_chirho@) =~= Seq::<Seq<char>>::empty());
        assert(names_of(out_chirho@) + path_components(path_chirho@) =~= path_components(path_chirho@));
    }
    while i_chirho < n_chirho
        invariant
            n_chirho == path_chirho@.len(),
            start_chirho <= i_chirho <= n_chirho,
            names_of(out_chirho@) + split_from(path_chirho@, i_chirho as int, path_chirho@.subrange(start_chirho as int, i_chirho as int))
                == path_components(path_chirho@),
        decreases n_chirho - i_chirho,
    {
        let c_chirho = path_chirho.get_char(i_chirho);
        let ghost cur = path_chirho@.subrange(start_chirho as int, i_chirho as int);
        if c_chirho == '/' {
            if start_chirho < i_chirho {
                let piece_chirho = path_chirho.substring_char(start_chirho, i_chirho).to_owned();
                let ghost before = names_of(out_chirho@);
                out_chirho.push(piece_chirho);
                assert(names_of(out_chirho@) =~= before + seq![cur]);
            } else {
                assert(cur =~= Seq::<char>::empty());
            }
            proof {
                assert(path_chirho@.subrange(i_chirho + 1, i_chirho + 1) =~= Seq::<char>::empty());
                assert(names_of(out_chirho@) + split_from(path_chirho@, i_chirho + 1, Seq::empty())
                    =~= path_components(path_chirho@));
            }
            start_chirho = i_chirho + 1;
        } else {
            assert(path_chirho@.subrange(start_chirho as int, i_chirho + 1) =~= cur.push(c_chirho));
        }
        i_chirho = i_chirho + 1;
    }
    let ghost cur = path_chirho@.subrange(start_chirho as int, i_chirho as int);
    if start_chirho < n_chirho {
        let piece_chirho = path_chirho.substring_char(start_chirho, n_chirho).to_owned();
        let ghost before = names_of(out_chirho@);
        out_chirho.push(piece_chirho);
        assert(names_of(out_chirho@) =~= before + seq![cur]);
    } else {
        assert(cur =~= Seq::<char>::empty());
        assert(names_of(out_chirho@) =~= names_of(out_chirho@) + Seq::<Seq<char>>::empty());
    }
    out_chirho
}

/// `e` is a regular file named `name` holding `content`, with the
/// permission bits of `mode`.
pub open spec fn is_file_entry(e: LayerEntryChirho, name: Seq<char>, content: Seq<u8>, mode: u32) -> bool {
    &&& e.name_chirho@ == name
    &&& e.mode_chirho == S_IFREG_CHIRHO | (mode & 0o7777)
    &&& e.size_chirho == content.len()
    &&& e.content_chirho@ == content
    &&& e.children_chirho@.len() == 0
    &&& !e.is_whiteout_chirho
}

/// `e` is an empty directory named `name` with the permission bits of
/// `mode`.
pub open spec fn is_dir_entry(e: LayerEntryChirho, name: Seq<char>, mode: u32) -> bool {
    &&& e.name_chirho@ == name
    &&& e.mode_chirho == S_IFDIR_CHIRHO | (mode & 0o7777)
    &&& e.size_chirho == 0
    &&& e.content_chirho@.len() == 0
    &&& e.children_chirho@.len() == 0
    &&& !e.is_whiteout_chirho
}

/// `e` is the whiteout for `name`.
pub open spec fn is_whiteout_entry(e: LayerEntryChirho, name: Seq<char>) -> bool {
    &&& e.name_chirho@ == wh_name(name)
    &&& e.mode_chirho == S_IFREG_CHIRHO
    &&& e.size_chirho == 0
    &&& e.content_chirho@.len() == 0
    &&& e.children_chirho@.len() == 0
    &&& e.is_whiteout_chirho
}

impl LayerEntryChirho {
    /// A regular file named `name` holding `content`.
    pub fn new_file_chirho(name_chirho: &str, content_chirho: &[u8], mode_chirho: u32) -> (r: Self)
        ensures
            is_file_entry(r, name_chirho@, content_chirho@, mode_chirho),
    {
        let mut data_chirho: Vec<u8> = Vec::new();
        crate::bytes::push_all_chirho(&mut data_chirho, content_chirho);
        LayerEntryChirho {
            name_chirho: name_chirho.to_owned(),
            mode_chirho: S_IFREG_CHIRHO | (mode_chirho & 0o7777),
            size_chirho: content_chirho.len() as u64,
            content_chirho: data_chirho,
            children_chirho: Vec::new(),
            is_whiteout_chirho: false,
        }
    }

    /// An empty directory named `name`.
    pub fn new_dir_chirho(name_chirho: &str, mode_chirho: u32) -> (r: Self)
        ensures
            is_dir_entry(r, name_chirho@, mode_chirho),
    {
        LayerEntryChirho {
            name_chirho: name_chirho.to_owned(),
            mode_chirho: S_IFDIR_CHIRHO | (mode_chirho & 0o7777),
            size_chirho: 0,
            content_chirho: Vec::new(),
            children_chirho: Vec::new(),
            is_whiteout_chirho: false,
        }
    }

    /// The whiteout that marks `name` deleted.
    pub fn new_whiteout_chirho(name_chirho: &str) -> (r: Self)
        ensures
            is_whiteout_entry(r, name_chirho@),
    {
        let mut w_chirho = ".wh.".to_owned();
        proof { reveal_strlit(".wh."); }
        w_chirho.append(name_chirho);
        assert(".wh."@ =~= wh_prefix());
        LayerEntryChirho {
            name_chirho: w_chirho,
            mode_chirho: S_IFREG_CHIRHO,
            size_chirho: 0,
            content_chirho: Vec::new(),
            children_chirho: Vec::new(),
            is_whiteout_chirho: true,
        }
    }

    /// The first child named `name`.
    pub fn find_child_chirho(&self, name_chirho: &str) -> (r: Option<&LayerEntryChirho>)
        ensures
            find_named(self.children_chirho@, name_chirho@) < 0 ==> r is None,
            find_named(self.children_chirho@, name_chirho@) >= 0 ==> (r matches Some(c)
                && *c == self.children_chirho@[find_named(self.children_chirho@, name_chirho@)]),
    {
        let n_chirho = name_chirho.to_owned();
        match find_child_index_chirho(&self.children_chirho, &n_chirho) {
            Some(k_chirho) => Some(&self.children_chirho[k_chirho]),
            None => None,
        }
    }

    /// The first child named `name`, to change in place.
    pub fn find_child_mut_chirho(&mut self, name_chirho: &str) -> (r: Option<&mut LayerEntryChirho>)
        ensures
            find_named(old(self).children_chirho@, name_chirho@) < 0 ==> r is None && *final(self) == *old(self),
            find_named(old(self).children_chirho@, name_chirho@) >= 0 ==> (r matches Some(c) && {
                let k = find_named(old(self).children_chirho@, name_chirho@);
                &&& *c == old(self).children_chirho@[k]
                &&& final(self).children_chirho@ == old(self).children_chirho@.update(k, *final(c))
                &&& final(self).name_chirho == old(self).name_chirho
                &&& final(self).mode_chirho == old(self).mode_chirho
                &&& final(self).size_chirho == old(self).size_chirho
                &&& final(self).content_chirho == old(self).content_chirho
                &&& final(self).is_whiteout_chirho == old(self).is_whiteout_chirho
            }),
    {
        let n_chirho = name_chirho.to_owned();
        match find_child_index_chirho(&self.children_chirho, &n_chirho) {
            Some(k_chirho) => Some(&mut self.children_chirho[k_chirho]),
            None => None,
        }
    }
}

/// The entry the first `n` of the components lead to from `root`.
fn walk_layer_chirho<'a>(root_chirho: &'a LayerEntryChirho, comps_chirho: &Vec<String>, n_chirho: usize)
    -> (r: Option<&'a LayerEntryChirho>)
    requires
        n_chirho <= comps_chirho@.len(),
    ensures
        match walk(*root_chirho, names_of(comps_chirho@).take(n_chirho as int)) {
            None => r is None,
            Some(e) => r matches Some(x) && *x == e,
        },
{
    let ghost cs = names_of(comps_chirho@).take(n_chirho as int);
    let mut cur_chirho: &LayerEntryChirho = root_chirho;
    let mut i_chirho: usize = 0;
    assert(cs.skip(0) =~= cs);
    while i_chirho < n_chirho
        invariant
            i_chirho <= n_chirho <= comps_chirho@.len(),
            cs == names_of(comps_chirho@).take(n_chirho as int),
            walk(*root_chirho, cs) == walk(*cur_chirho, cs.skip(i_chirho as int)),
        decreases n_chirho - i_chirho,
    {
        let ghost rest = cs.skip(i_chirho as int);
        assert(rest[0] == comps_chirho@[i_chirho as int]@);
        assert(rest.drop_first() =~= cs.skip(i_chirho + 1));
        match find_child_index_chirho(&cur_chirho.children_chirho, &comps_chirho[i_chirho]) {
            Some(k_chirho) => {
                cur_chirho = &cur_chirho.children_chirho[k_chirho];
            },
            None => {
                return None;
            },
        }
        i_chirho = i_chirho + 1;
    }
    assert(cs.skip(n_chirho as int) =~= Seq::<Seq<char>>::empty());
    Some(cur_chirho)
}

impl OverlayFsChirho {
    /// An overlay with two empty root directories.
    pub fn new_chirho() -> (r: Self)
        ensures
            is_dir_entry(r.lower_chirho, Seq::empty(), 0o755),
            is_dir_entry(r.upper_chirho, Seq::empty(), 0o755),
    {
        let root_name_chirho = "";
        proof {
            reveal_strlit("");
            assert(root_name_chirho@ =~= Seq::<char>::empty());
        }
        OverlayFsChirho {
            lower_chirho: LayerEntryChirho::new_dir_chirho(root_name_chirho, 0o755),
            upper_chirho: LayerEntryChirho::new_dir_chirho(root_name_chirho, 0o755),
        }
    }

    /// The entry at `path` in the merged view and the layer it comes
    /// from, as `lookup_spec` says.
    pub fn lookup_chirho(&self, path_chirho: &str) -> (r: Option<(&LayerEntryChirho, OverlayOriginChirho)>)
        ensures
            match lookup_spec(*self, path_components(path_chirho@)) {
                None => r is None,
                Some((e, o)) => r matches Some((x, y)) && *x == e && y == o,
            },
    {
        let comps_chirho = split_path_chirho(path_chirho);
        let ghost cs = path_components(path_chirho@);
        let n_chirho = comps_chirho.len();
        assert(names_of(comps_chirho@).take(n_chirho as int) =~= cs);
        match walk_layer_chirho(&self.upper_chirho, &comps_chirho, n_chirho) {
            Some(e_chirho) => {
                if e_chirho.is_whiteout_chirho {
                    return None;
                }
                return Some((e_chirho, OverlayOriginChirho::UpperChirho));
            },
            None => {},
        }
        if n_chirho > 0 {
            assert(names_of(comps_chirho@).take(n_chirho - 1) =~= cs.drop_last());
            assert(comps_chirho@[n_chirho - 1]@ == cs.last());
            match walk_layer_chirho(&self.upper_chirho, &comps_chirho, n_chirho - 1) {
                Some(parent_chirho) => {
                    let wh_chirho = LayerEntryChirho::new_whiteout_chirho(comps_chirho[n_chirho - 1].as_str());
                    if find_child_index_chirho(&parent_chirho.children_chirho, &wh_chirho.name_chirho).is_some() {
                        return None;
                    }
                },
                None => {},
            }
        }
        match walk_layer_chirho(&self.lower_chirho, &comps_chirho, n_chirho) {
            Some(e_chirho) => Some((e_chirho, OverlayOriginChirho::LowerChirho)),
            None => None,
        }
    }
}

/// `s` without the entries named `name`, in order.
pub open spec fn remove_named(s: Seq<LayerEntryChirho>, name: Seq<char>) -> Seq<LayerEntryChirho>
    decreases s.len(),
{
    if s.len() == 0 {
        s
    } else if s[0].name_chirho@ == name {
        remove_named(s.drop_first(), name)
    } else {
        seq![s[0]] + remove_named(s.drop_first(), name)
    }
}

/// `n` is `o` with only its children possibly changed.
pub open spec fn same_but_children(o: LayerEntryChirho, n: LayerEntryChirho) -> bool {
    &&& n.name_chirho == o.name_chirho
    &&& n.mode_chirho == o.mode_chirho
    &&& n.size_chirho == o.size_chirho
    &&& n.content_chirho == o.content_chirho
    &&& n.is_whiteout_chirho == o.is_whiteout_chirho
}

/// `n` is the file `o` rewritten with `content` and the permission bits
/// of `mode`.
pub open spec fn updated_file(o: LayerEntryChirho, n: LayerEntryChirho, content: Seq<u8>, mode: u32) -> bool {
    &&& n.name_chirho == o.name_chirho
    &&& n.children_chirho == o.children_chirho
    &&& n.is_whiteout_chirho == o.is_whiteout_chirho
    &&& n.content_chirho@ == content
    &&& n.size_chirho == content.len()
    &&& n.mode_chirho == S_IFREG_CHIRHO | (mode & 0o7777)
}

/// What is done to the directory a path ends in.
pub enum LeafActionChirho<'a> {
    /// Write the file: drop its whiteout, then rewrite the first entry of
    /// that name or add a new file.
    WriteChirho(&'a [u8], u32),
    /// Delete the file: drop every entry of that name, then add a whiteout
    /// when the lower layer has the file.
    DeleteChirho(bool),
    /// Add a new file (after any entries of that name).
    AddChirho(&'a [u8], u32),
}

/// The entries `ok` of a directory become `nk` by `act` on the entry
/// named `name`.
pub open spec fn leaf_kids(ok: Seq<LayerEntryChirho>, nk: Seq<LayerEntryChirho>, name: Seq<char>, act: LeafActionChirho) -> bool {
    match act {
        LeafActionChirho::WriteChirho(content, mode) => {
            let kept = remove_named(ok, wh_name(name));
            let k = find_named(kept, name);
            if k >= 0 {
                &&& nk.len() == kept.len()
                &&& forall|j: int| 0 <= j < kept.len() && j != k ==> nk[j] == kept[j]
                &&& updated_file(kept[k], nk[k], content@, mode)
            } else {
                &&& nk.len() == kept.len() + 1
                &&& nk.drop_last() == kept
                &&& is_file_entry(nk.last(), name, content@, mode)
            }
        },
        LeafActionChirho::DeleteChirho(in_lower) => {
            let kept = remove_named(ok, name);
            if in_lower {
                &&& nk.len() == kept.len() + 1
                &&& nk.drop_last() == kept
                &&& is_whiteout_entry(nk.last(), name)
            } else {
                nk == kept
            }
        },
        LeafActionChirho::AddChirho(content, mode) => {
            &&& nk.len() == ok.len() + 1
            &&& nk.drop_last() == ok
            &&& is_file_entry(nk.last(), name, content@, mode)
        },
    }
}

/// `e` looks like a directory named `name` made on the way (mode 0755),
/// whatever its entries.
pub open spec fn is_new_dir_header(e: LayerEntryChirho, name: Seq<char>) -> bool {
    &&& e.name_chirho@ == name
    &&& e.mode_chirho == S_IFDIR_CHIRHO | (0o755u32 & 0o7777)
    &&& e.size_chirho == 0
    &&& e.content_chirho@.len() == 0
    &&& !e.is_whiteout_chirho
}

/// The entries `ok` of a directory become `nk` by `act` at the end of the
/// path `cs`: along the path the first entry of each name is followed, and
/// a missing directory is added (mode 0755) at the end of its parent.
pub open spec fn kids_rel(ok: Seq<LayerEntryChirho>, nk: Seq<LayerEntryChirho>, cs: Seq<Seq<char>>, act: LeafActionChirho) -> bool
    decreases cs.len(),
{
    if cs.len() <= 1 {
        leaf_kids(ok, nk, cs[0], act)
    } else {
        let k0 = find_named(ok, cs[0]);
        if k0 >= 0 {
            &&& nk.len() == ok.len()
            &&& forall|j: int| 0 <= j < ok.len() && j != k0 ==> nk[j] == ok[j]
            &&& same_but_children(ok[k0], nk[k0])
            &&& kids_rel(ok[k0].children_chirho@, nk[k0].children_chirho@, cs.drop_first(), act)
        } else {
            &&& nk.len() == ok.len() + 1
            &&& nk.drop_last() == ok
            &&& is_new_dir_header(nk.last(), cs[0])
            &&& kids_rel(Seq::empty(), nk.last().children_chirho@, cs.drop_first(), act)
        }
    }
}

/// The tree `o` becomes `n` by `act` at the end of the path `cs`.
pub open spec fn path_rel(o: LayerEntryChirho, n: LayerEntryChirho, cs: Seq<Seq<char>>, act: LeafActionChirho) -> bool {
    same_but_children(o, n) && kids_rel(o.children_chirho@, n.children_chirho@, cs, act)
}

/// A blank entry, to hold a place while an entry is out of its vector.
fn blank_entry_chirho() -> (r: LayerEntryChirho)
    ensures
        r.name_chirho@ == Seq::<char>::empty(),
        r.mode_chirho == 0,
        r.size_chirho == 0,
        r.content_chirho@ == Seq::<u8>::empty(),
        r.children_chirho@ == Seq::<LayerEntryChirho>::empty(),
        !r.is_whiteout_chirho,
{
    LayerEntryChirho {
        name_chirho: String::new(),
        mode_chirho: 0,
        size_chirho: 0,
        content_chirho: Vec::new(),
        children_chirho: Vec::new(),
        is_whiteout_chirho: false,
    }
}

/// Move entry `k` out of `v`, leaving a blank one in its place.
fn take_entry_chirho(v: &mut Vec<LayerEntryChirho>, k: usize) -> (r: LayerEntryChirho)
    requires
        k < old(v)@.len(),
    ensures
        r == old(v)@[k as int],
        final(v)@.len() == old(v)@.len(),
        forall|j: int| 0 <= j < old(v)@.len() && j != k ==> final(v)@[j] == old(v)@[j],
{
    let mut tmp_chirho = blank_entry_chirho();
    std::mem::swap(&mut tmp_chirho, &mut v[k]);
    tmp_chirho
}

/// `children` without the entries named like `name`.
fn remove_named_chirho(children_chirho: Vec<LayerEntryChirho>, name_chirho: &String) -> (r: Vec<LayerEntryChirho>)
    ensures
        r@ == remove_named(children_chirho@, name_chirho@),
{
    let ghost orig = children_chirho@;
    let mut rest_chirho = children_chirho;
    let mut out_chirho: Vec<LayerEntryChirho> = Vec::new();
    assert(out_chirho@ + remove_named(rest_chirho@, name_chirho@) =~= remove_named(orig, name_chirho@));
    while rest_chirho.len() > 0
        invariant
            out_chirho@ + remove_named(rest_chirho@, name_chirho@) == remove_named(orig, name_chirho@),
        decreases rest_chirho@.len(),
    {
        let ghost r0 = rest_chirho@;
        let e_chirho = rest_chirho.remove(0);
        assert(rest_chirho@ =~= r0.drop_first());
        if e_chirho.name_chirho != *name_chirho {
            let ghost o0 = out_chirho@;
            out_chirho.push(e_chirho);
            assert(out_chirho@ + remove_named(rest_chirho@, name_chirho@) =~= o0 + remove_named(r0, name_chirho@));
        }
    }
    assert(remove_named(rest_chirho@, name_chirho@) =~= rest_chirho@);
    assert(out_chirho@ =~= out_chirho@ + rest_chirho@);
    out_chirho
}

/// Apply `act` to the directory the path `comps[i..]` ends in under
/// `node`, adding missing directories on the way.
fn apply_at_path_chirho(node_chirho: &mut LayerEntryChirho, comps_chirho: &Vec<String>, i_chirho: usize,
    act_chirho: &LeafActionChirho)
    requires
        i_chirho < comps_chirho@.len(),
    ensures
        path_rel(*old(node_chirho), *final(node_chirho), names_of(comps_chirho@).skip(i_chirho as int), *act_chirho),
    decreases comps_chirho@.len() - i_chirho,
{
    let ghost cs = names_of(comps_chirho@).skip(i_chirho as int);
    let ghost o = *node_chirho;
    assert(cs[0] == comps_chirho@[i_chirho as int]@);
    assert(cs.len() == comps_chirho@.len() - i_chirho);
    let name_chirho = &comps_chirho[i_chirho];
    if i_chirho == comps_chirho.len() - 1 {
        match act_chirho {
            LeafActionChirho::WriteChirho(content_chirho, mode_chirho) => {
                let wh_chirho = LayerEntryChirho::new_whiteout_chirho(name_chirho.as_str());
                let mut kids_chirho = Vec::new();
                std::mem::swap(&mut kids_chirho, &mut node_chirho.children_chirho);
                kids_chirho = remove_named_chirho(kids_chirho, &wh_chirho.name_chirho);
                let ghost kept = kids_chirho@;
                match find_child_index_chirho(&kids_chirho, name_chirho) {
                    Some(k_chirho) => {
                        let mut f_chirho = take_entry_chirho(&mut kids_chirho, k_chirho);
                        let mut data_chirho: Vec<u8> = Vec::new();
                        crate::bytes::push_all_chirho(&mut data_chirho, content_chirho);
                        f_chirho.content_chirho = data_chirho;
                        f_chirho.size_chirho = content_chirho.len() as u64;
                        f_chirho.mode_chirho = S_IFREG_CHIRHO | (*mode_chirho & 0o7777);
                        let ghost mid = kids_chirho@;
                        kids_chirho.set(k_chirho, f_chirho);
                        assert forall|j: int| 0 <= j < kept.len() && j != k_chirho implies kids_chirho@[j] == kept[j] by {
                            assert(mid[j] == kept[j]);
                        }
                    },
                    None => {
                        kids_chirho.push(LayerEntryChirho::new_file_chirho(name_chirho.as_str(), content_chirho, *mode_chirho));
                        assert(kids_chirho@.drop_last() =~= kept);
                    },
                }
                node_chirho.children_chirho = kids_chirho;
            },
            LeafActionChirho::DeleteChirho(in_lower_chirho) => {
                let mut kids_chirho = Vec::new();
                std::mem::swap(&mut kids_chirho, &mut node_chirho.children_chirho);
                kids_chirho = remove_named_chirho(kids_chirho, name_chirho);
                let ghost kept = kids_chirho@;
                if *in_lower_chirho {
                    kids_chirho.push(LayerEntryChirho::new_whiteout_chirho(name_chirho.as_str()));
                    assert(kids_chirho@.drop_last() =~= kept);
                }
                node_chirho.children_chirho = kids_chirho;
            },
            LeafActionChirho::AddChirho(content_chirho, mode_chirho) => {
                node_chirho.children_chirho.push(LayerEntryChirho::new_file_chirho(name_chirho.as_str(), content_chirho, *mode_chirho));
                assert(node_chirho.children_chirho@.drop_last() =~= o.children_chirho@);
            },
        }
    } else {
        assert(cs.drop_first() =~= names_of(comps_chirho@).skip(i_chirho + 1));
        let k_chirho = match find_child_index_chirho(&node_chirho.children_chirho, name_chirho) {
            Some(k_chirho) => k_chirho,
            None => {
                node_chirho.children_chirho.push(LayerEntryChirho::new_dir_chirho(name_chirho.as_str(), 0o755));
                node_chirho.children_chirho.len() - 1
            },
        };
        let ghost mid = node_chirho.children_chirho@;
        let mut child_chirho = take_entry_chirho(&mut node_chirho.children_chirho, k_chirho);
        let ghost c0 = child_chirho;
        apply_at_path_chirho(&mut child_chirho, comps_chirho, i_chirho + 1, act_chirho);
        node_chirho.children_chirho.set(k_chirho, child_chirho);
        proof {
            let nk = node_chirho.children_chirho@;
            let ok = o.children_chirho@;
            if find_named(ok, cs[0]) >= 0 {
                assert(mid == ok);
                assert forall|j: int| 0 <= j < ok.len() && j != k_chirho implies nk[j] == ok[j] by {}
            } else {
                assert(nk.drop_last() =~= ok);
                assert(c0.children_chirho@ =~= Seq::<LayerEntryChirho>::empty());
            }
        }
    }
}

impl OverlayFsChirho {
    /// Write a file in the merged view: `-EINVAL` for a path without
    /// components; else, in the upper layer, the missing parent directories
    /// are made, the file's whiteout goes, and the first entry of its name
    /// is rewritten, or a new file added. The lower layer does not change.
    pub fn write_file_chirho(&mut self, path_chirho: &str, content_chirho: &[u8], mode_chirho: u32) -> (r: Result<(), i64>)
        ensures
            path_components(path_chirho@).len() == 0 ==> (r matches Err(e) && e == -EINVAL_OVL_CHIRHO)
                && final(self).upper_chirho == old(self).upper_chirho,
            path_components(path_chirho@).len() > 0 ==> r is Ok && path_rel(old(self).upper_chirho, final(self).upper_chirho,
                path_components(path_chirho@), LeafActionChirho::WriteChirho(content_chirho, mode_chirho)),
            final(self).lower_chirho == old(self).lower_chirho,
    {
        let comps_chirho = split_path_chirho(path_chirho);
        if comps_chirho.len() == 0 {
            return Err(-EINVAL_OVL_CHIRHO);
        }
        assert(names_of(comps_chirho@).skip(0) =~= names_of(comps_chirho@));
        apply_at_path_chirho(&mut self.upper_chirho, &comps_chirho, 0, &LeafActionChirho::WriteChirho(content_chirho, mode_chirho));
        Ok(())
    }

    /// Delete a file from the merged view: `-EINVAL` for a path without
    /// components; else, in the upper layer, the missing parent directories
    /// are made, every entry of the file's name goes, and a whiteout is
    /// added when the lower layer has the file. The lower layer does not
    /// change.
    pub fn delete_file_chirho(&mut self, path_chirho: &str) -> (r: Result<(), i64>)
        ensures
            path_components(path_chirho@).len() == 0 ==> (r matches Err(e) && e == -EINVAL_OVL_CHIRHO)
                && final(self).upper_chirho == old(self).upper_chirho,
            path_components(path_chirho@).len() > 0 ==> r is Ok && path_rel(old(self).upper_chirho, final(self).upper_chirho,
                path_components(path_chirho@),
                LeafActionChirho::DeleteChirho(walk(old(self).lower_chirho, path_components(path_chirho@)) is Some)),
            final(self).lower_chirho == old(self).lower_chirho,
    {
        let comps_chirho = split_path_chirho(path_chirho);
        if comps_chirho.len() == 0 {
            return Err(-EINVAL_OVL_CHIRHO);
        }
        let n_chirho = comps_chirho.len();
        assert(names_of(comps_chirho@).take(n_chirho as int) =~= names_of(comps_chirho@));
        let in_lower_chirho = walk_layer_chirho(&self.lower_chirho, &comps_chirho, n_chirho).is_some();
        assert(names_of(comps_chirho@).skip(0) =~= names_of(comps_chirho@));
        apply_at_path_chirho(&mut self.upper_chirho, &comps_chirho, 0, &LeafActionChirho::DeleteChirho(in_lower_chirho));
        Ok(())
    }
}

/// Make a new overlay (two empty layers) at the end of `instances`; its
/// index is returned.
pub fn create_overlay_chirho(instances_chirho: &mut Vec<OverlayFsChirho>) -> (r: usize)
    requires
        old(instances_chirho)@.len() < usize::MAX,
    ensures
        r == old(instances_chirho)@.len(),
        final(instances_chirho)@.len() == old(instances_chirho)@.len() + 1,
        final(instances_chirho)@.drop_last() == old(instances_chirho)@,
        is_dir_entry(final(instances_chirho)@.last().lower_chirho, Seq::empty(), 0o755),
        is_dir_entry(final(instances_chirho)@.last().upper_chirho, Seq::empty(), 0o755),
{
    let idx_chirho = instances_chirho.len();
    instances_chirho.push(OverlayFsChirho::new_chirho());
    assert(instances_chirho@.drop_last() =~= old(instances_chirho)@);
    idx_chirho
}

/// Add a file to the lower layer of overlay `instance`: `-EINVAL` for an
/// instance that does not exist or a path without components; else the
/// missing parent directories are made and the file is added after the
/// entries already there.
pub fn overlay_add_lower_file_chirho(instances_chirho: &mut Vec<OverlayFsChirho>, instance_chirho: usize, path_chirho: &str,
    content_chirho: &[u8], mode_chirho: u32) -> (r: Result<(), i64>)
    ensures
        final(instances_chirho)@.len() == old(instances_chirho)@.len(),
        (instance_chirho >= old(instances_chirho)@.len() || path_components(path_chirho@).len() == 0)
            ==> (r matches Err(e) && e == -EINVAL_OVL_CHIRHO) && final(instances_chirho)@ == old(instances_chirho)@,
        !(instance_chirho >= old(instances_chirho)@.len() || path_components(path_chirho@).len() == 0) ==> {
            let o = old(instances_chirho)@[instance_chirho as int];
            let n = final(instances_chirho)@[instance_chirho as int];
            &&& r is Ok
            &&& forall|j: int| 0 <= j < old(instances_chirho)@.len() && j != instance_chirho
                ==> final(instances_chirho)@[j] == old(instances_chirho)@[j]
            &&& n.upper_chirho == o.upper_chirho
            &&& path_rel(o.lower_chirho, n.lower_chirho, path_components(path_chirho@),
                LeafActionChirho::AddChirho(content_chirho, mode_chirho))
        },
{
    if instance_chirho >= instances_chirho.len() {
        return Err(-EINVAL_OVL_CHIRHO);
    }
    let comps_chirho = split_path_chirho(path_chirho);
    if comps_chirho.len() == 0 {
        return Err(-EINVAL_OVL_CHIRHO);
    }
    let mut blank_chirho = OverlayFsChirho { lower_chirho: blank_entry_chirho(), upper_chirho: blank_entry_chirho() };
    std::mem::swap(&mut blank_chirho, &mut instances_chirho[instance_chirho]);
    let mut ovl_chirho = blank_chirho;
    assert(names_of(comps_chirho@).skip(0) =~= names_of(comps_chirho@));
    apply_at_path_chirho(&mut ovl_chirho.lower_chirho, &comps_chirho, 0, &LeafActionChirho::AddChirho(content_chirho, mode_chirho));
    instances_chirho.set(instance_chirho, ovl_chirho);
    Ok(())
}

/// The entry the components `cs` (at least one) lead to among the
/// entries `kids` of a directory.
pub open spec fn walk_kids(kids: Seq<LayerEntryChirho>, cs: Seq<Seq<char>>) -> Option<LayerEntryChirho> {
    let k = find_named(kids, cs[0]);
    if k < 0 { None } else { walk(kids[k], cs.drop_first()) }
}

/// The entries of the directory that holds the last of the components
/// `cs` (at least one), starting among `kids`.
pub open spec fn parent_kids(kids: Seq<LayerEntryChirho>, cs: Seq<Seq<char>>) -> Option<Seq<LayerEntryChirho>>
    decreases cs.len(),
{
    if cs.len() <= 1 {
        Some(kids)
    } else {
        let k = find_named(kids, cs[0]);
        if k < 0 { None } else { parent_kids(kids[k].children_chirho@, cs.drop_first()) }
    }
}

proof fn lemma_find_same_names(a: Seq<LayerEntryChirho>, b: Seq<LayerEntryChirho>, name: Seq<char>)
    requires
        a.len() == b.len(),
        forall|j: int| 0 <= j < a.len() ==> a[j].name_chirho@ == b[j].name_chirho@,
    ensures
        find_named(a, name) == find_named(b, name),
    decreases a.len(),
{
    if a.len() > 0 {
        lemma_find_same_names(a.drop_first(), b.drop_first(), name);
    }
}

proof fn lemma_find_push(a: Seq<LayerEntryChirho>, x: LayerEntryChirho, name: Seq<char>)
    ensures
        find_named(a, name) >= 0 ==> find_named(a.push(x), name) == find_named(a, name),
        find_named(a, name) < 0 && x.name_chirho@ == name ==> find_named(a.push(x), name) == a.len(),
        find_named(a, name) < 0 && x.name_chirho@ != name ==> find_named(a.push(x), name) < 0,
    decreases a.len(),
{
    if a.len() > 0 {
        lemma_find_push(a.drop_first(), x, name);
        assert(a.push(x).drop_first() =~= a.drop_first().push(x));
        assert(a.push(x)[0] == a[0]);
    } else {
        assert(a.push(x).drop_first() =~= Seq::<LayerEntryChirho>::empty());
        assert(a.push(x)[0] == x);
        assert(find_named(a.push(x).drop_first(), name) == -1);
    }
}

proof fn lemma_find_remove(s: Seq<LayerEntryChirho>, w: Seq<char>, c: Seq<char>)
    requires
        c != w,
    ensures
        (find_named(remove_named(s, w), c) >= 0) == (find_named(s, c) >= 0),
        find_named(s, c) >= 0 ==> remove_named(s, w)[find_named(remove_named(s, w), c)] == s[find_named(s, c)],
        find_named(remove_named(s, w), w) < 0,
    decreases s.len(),
{
    if s.len() > 0 {
        lemma_find_remove(s.drop_first(), w, c);
        let d = s.drop_first();
        let r = remove_named(d, w);
        lemma_find_named_range(d, c);
        lemma_find_named_range(r, c);
        lemma_find_named_range(s, c);
        if s[0].name_chirho@ != c {
            if find_named(d, c) >= 0 {
                assert(s[find_named(s, c)] == d[find_named(d, c)]);
            }
        }
        if s[0].name_chirho@ != w {
            let sr = seq![s[0]] + r;
            assert(sr.drop_first() =~= r);
            assert(sr[0] == s[0]);
            if s[0].name_chirho@ != c && find_named(r, c) >= 0 {
                assert(sr[find_named(r, c) + 1] == r[find_named(r, c)]);
            }
        }
    }
}

proof fn lemma_find_some(s: Seq<LayerEntryChirho>, name: Seq<char>, j: int)
    requires
        0 <= j < s.len(),
        s[j].name_chirho@ == name,
    ensures
        find_named(s, name) >= 0,
{
    lemma_find_named_range(s, name);
}

proof fn lemma_wh_differs(c: Seq<char>)
    ensures
        wh_name(c) != c,
{
    assert(wh_name(c).len() == c.len() + 4);
}

proof fn lemma_write_kids(ok: Seq<LayerEntryChirho>, nk: Seq<LayerEntryChirho>, cs: Seq<Seq<char>>, content: &[u8], mode: u32)
    requires
        cs.len() >= 1,
        kids_rel(ok, nk, cs, LeafActionChirho::WriteChirho(content, mode)),
    ensures
        walk_kids(nk, cs) matches Some(e) && e.content_chirho@ == content@ && e.size_chirho == content@.len()
            && e.mode_chirho == S_IFREG_CHIRHO | (mode & 0o7777)
            && e.is_whiteout_chirho == (walk_kids(ok, cs) matches Some(o) && o.is_whiteout_chirho),
    decreases cs.len(),
{
    let c = cs[0];
    let act = LeafActionChirho::WriteChirho(content, mode);
    if cs.len() == 1 {
        assert(cs.drop_first() =~= Seq::<Seq<char>>::empty());
        let kept = remove_named(ok, wh_name(c));
        let k = find_named(kept, c);
        lemma_wh_differs(c);
        lemma_find_remove(ok, wh_name(c), c);
        lemma_find_named_range(kept, c);
        if k >= 0 {
            assert forall|j: int| 0 <= j < kept.len() implies kept[j].name_chirho@ == nk[j].name_chirho@ by {
                if j != k {
                    assert(nk[j] == kept[j]);
                }
            }
            lemma_find_same_names(kept, nk, c);
        } else {
            assert(nk =~= kept.push(nk.last()));
            lemma_find_push(kept, nk.last(), c);
        }
    } else {
        let rest = cs.drop_first();
        let k0 = find_named(ok, c);
        lemma_find_named_range(ok, c);
        if k0 >= 0 {
            assert forall|j: int| 0 <= j < ok.len() implies ok[j].name_chirho@ == nk[j].name_chirho@ by {
                if j != k0 {
                    assert(nk[j] == ok[j]);
                }
            }
            lemma_find_same_names(ok, nk, c);
            lemma_write_kids(ok[k0].children_chirho@, nk[k0].children_chirho@, rest, content, mode);
        } else {
            assert(nk =~= ok.push(nk.last()));
            lemma_find_push(ok, nk.last(), c);
            lemma_write_kids(Seq::empty(), nk.last().children_chirho@, rest, content, mode);
        }
    }
}

proof fn lemma_delete_kids(ok: Seq<LayerEntryChirho>, nk: Seq<LayerEntryChirho>, cs: Seq<Seq<char>>, in_lower: bool)
    requires
        cs.len() >= 1,
        kids_rel(ok, nk, cs, LeafActionChirho::DeleteChirho(in_lower)),
    ensures
        walk_kids(nk, cs) is None,
        parent_kids(nk, cs) is Some,
        in_lower ==> find_named(parent_kids(nk, cs)->0, wh_name(cs.last())) >= 0,
        !in_lower ==> (find_named(parent_kids(nk, cs)->0, wh_name(cs.last())) >= 0
            ==> (parent_kids(ok, cs) matches Some(q) && find_named(q, wh_name(cs.last())) >= 0)),
    decreases cs.len(),
{
    let c = cs[0];
    if cs.len() == 1 {
        let kept = remove_named(ok, c);
        lemma_wh_differs(c);
        lemma_find_remove(ok, c, wh_name(c));
        if in_lower {
            assert(nk =~= kept.push(nk.last()));
            lemma_find_push(kept, nk.last(), c);
            lemma_find_some(nk, wh_name(c), nk.len() - 1);
        }
    } else {
        let rest = cs.drop_first();
        let k0 = find_named(ok, c);
        lemma_find_named_range(ok, c);
        assert(rest.last() == cs.last());
        if k0 >= 0 {
            assert forall|j: int| 0 <= j < ok.len() implies ok[j].name_chirho@ == nk[j].name_chirho@ by {
                if j != k0 {
                    assert(nk[j] == ok[j]);
                }
            }
            lemma_find_same_names(ok, nk, c);
            lemma_delete_kids(ok[k0].children_chirho@, nk[k0].children_chirho@, rest, in_lower);
        } else {
            assert(nk =~= ok.push(nk.last()));
            lemma_find_push(ok, nk.last(), c);
            lemma_delete_kids(Seq::empty(), nk.last().children_chirho@, rest, in_lower);
        }
    }
}

proof fn lemma_walk_parent(e: LayerEntryChirho, cs: Seq<Seq<char>>)
    requires
        cs.len() >= 1,
        parent_kids(e.children_chirho@, cs) is Some,
    ensures
        walk(e, cs.drop_last()) matches Some(p) && p.children_chirho@ == parent_kids(e.children_chirho@, cs)->0,
    decreases cs.len(),
{
    if cs.len() == 1 {
        assert(cs.drop_last() =~= Seq::<Seq<char>>::empty());
    } else {
        let k = find_named(e.children_chirho@, cs[0]);
        lemma_walk_parent(e.children_chirho@[k], cs.drop_first());
        assert(cs.drop_last().drop_first() =~= cs.drop_first().drop_last());
        assert(cs.drop_last()[0] == cs[0]);
    }
}

/// What is written is read back: after writing `content` with `mode` at
/// the path `cs`, the merged view shows at `cs` an upper-layer regular
/// file with that content, size and those permission bits; the one
/// exception is an upper entry at `cs` that is itself flagged as a
/// whiteout, which keeps its flag and so still hides the path.
pub proof fn lemma_write_then_lookup(o: OverlayFsChirho, n: OverlayFsChirho, cs: Seq<Seq<char>>, content: &[u8], mode: u32)
    requires
        cs.len() > 0,
        path_rel(o.upper_chirho, n.upper_chirho, cs, LeafActionChirho::WriteChirho(content, mode)),
        n.lower_chirho == o.lower_chirho,
    ensures
        (walk(o.upper_chirho, cs) matches Some(w) && w.is_whiteout_chirho) ==> lookup_spec(n, cs) is None,
        !(walk(o.upper_chirho, cs) matches Some(w) && w.is_whiteout_chirho) ==> (lookup_spec(n, cs) matches Some((e, origin))
            && origin == OverlayOriginChirho::UpperChirho && !e.is_whiteout_chirho
            && e.content_chirho@ == content@ && e.size_chirho == content@.len()
            && e.mode_chirho == S_IFREG_CHIRHO | (mode & 0o7777)),
{
    lemma_write_kids(o.upper_chirho.children_chirho@, n.upper_chirho.children_chirho@, cs, content, mode);
}

/// What is deleted is gone: after deleting the path `cs`, the merged view
/// shows nothing at `cs`; when the lower layer has the file, the upper
/// directory holding it now has an entry with the whiteout name of it, and
/// when the lower layer lacks it no such entry is made (one that was there
/// before stays).
pub proof fn lemma_delete_then_lookup(o: OverlayFsChirho, n: OverlayFsChirho, cs: Seq<Seq<char>>)
    requires
        cs.len() > 0,
        path_rel(o.upper_chirho, n.upper_chirho, cs, LeafActionChirho::DeleteChirho(walk(o.lower_chirho, cs) is Some)),
        n.lower_chirho == o.lower_chirho,
    ensures
        lookup_spec(n, cs) is None,
        walk(o.lower_chirho, cs) is Some ==> (parent_kids(n.upper_chirho.children_chirho@, cs) matches Some(p)
            && find_named(p, wh_name(cs.last())) >= 0),
        walk(o.lower_chirho, cs) is None ==> (parent_kids(n.upper_chirho.children_chirho@, cs) matches Some(p)
            && (find_named(p, wh_name(cs.last())) >= 0 ==> (parent_kids(o.upper_chirho.children_chirho@, cs) matches Some(q)
                && find_named(q, wh_name(cs.last())) >= 0))),
{
    let in_lower = walk(o.lower_chirho, cs) is Some;
    lemma_delete_kids(o.upper_chirho.children_chirho@, n.upper_chirho.children_chirho@, cs, in_lower);
    lemma_walk_parent(n.upper_chirho, cs);
}

/// The name a whiteout entry hides: its own name without the prefix, or
/// the whole name when it has none.
pub open spec fn whiteout_target(e: LayerEntryChirho) -> Seq<char> {
    if is_wh(e.name_chirho@) { e.name_chirho@.skip(4) } else { e.name_chirho@ }
}

/// The entry is a whiteout: flagged as one or named like one.
pub open spec fn counts_as_whiteout(e: LayerEntryChirho) -> bool {
    e.is_whiteout_chirho || is_wh(e.name_chirho@)
}

/// The listing of an upper directory's entries `ch`: the names and modes
/// of the ordinary entries, and the names the whiteouts hide.
pub open spec fn upper_scan(ch: Seq<LayerEntryChirho>) -> (Seq<(Seq<char>, u32)>, Seq<Seq<char>>)
    decreases ch.len(),
{
    if ch.len() == 0 {
        (Seq::empty(), Seq::empty())
    } else {
        let (es, ws) = upper_scan(ch.drop_last());
        let c = ch.last();
        if counts_as_whiteout(c) {
            (es, ws.push(whiteout_target(c)))
        } else {
            (es.push((c.name_chirho@, c.mode_chirho)), ws)
        }
    }
}

/// Some listed entry has the name `n`.
pub open spec fn listed_name(es: Seq<(Seq<char>, u32)>, n: Seq<char>) -> bool {
    exists|i: int| 0 <= i < es.len() && (#[trigger] es[i]).0 == n
}

/// The listing `es` extended with the lower directory's entries `ch`:
/// each is added unless hidden by a whiteout in `ws` or listed already.
pub open spec fn lower_scan(ch: Seq<LayerEntryChirho>, ws: Seq<Seq<char>>, es: Seq<(Seq<char>, u32)>) -> Seq<(Seq<char>, u32)>
    decreases ch.len(),
{
    if ch.len() == 0 {
        es
    } else {
        let prev = lower_scan(ch.drop_last(), ws, es);
        let c = ch.last();
        if ws.contains(c.name_chirho@) || listed_name(prev, c.name_chirho@) {
            prev
        } else {
            prev.push((c.name_chirho@, c.mode_chirho))
        }
    }
}

/// The merged listing of the directory at `cs`: the upper entries, then
/// the lower ones that no whiteout hides and no listed entry shadows.
pub open spec fn merged_listing(fs: OverlayFsChirho, cs: Seq<Seq<char>>) -> Seq<(Seq<char>, u32)> {
    let (es, ws) = match walk(fs.upper_chirho, cs) {
        Some(d) => upper_scan(d.children_chirho@),
        None => (Seq::empty(), Seq::empty()),
    };
    match walk(fs.lower_chirho, cs) {
        Some(d) => lower_scan(d.children_chirho@, ws, es),
        None => es,
    }
}

proof fn lemma_lower_scan(ch: Seq<LayerEntryChirho>, ws: Seq<Seq<char>>, es: Seq<(Seq<char>, u32)>)
    ensures
        lower_scan(ch, ws, es).len() >= es.len(),
        forall|i: int| 0 <= i < es.len() ==> #[trigger] lower_scan(ch, ws, es)[i] == es[i],
        forall|i: int| es.len() <= i < lower_scan(ch, ws, es).len() ==> !ws.contains(#[trigger] lower_scan(ch, ws, es)[i].0)
            && !listed_name(es, lower_scan(ch, ws, es)[i].0),
        forall|k: int| 0 <= k < ch.len() && !ws.contains(#[trigger] ch[k].name_chirho@)
            ==> listed_name(lower_scan(ch, ws, es), ch[k].name_chirho@),
    decreases ch.len(),
{
    if ch.len() > 0 {
        let prev = lower_scan(ch.drop_last(), ws, es);
        lemma_lower_scan(ch.drop_last(), ws, es);
        let c = ch.last();
        let ls = lower_scan(ch, ws, es);
        assert forall|k: int| 0 <= k < ch.len() && !ws.contains(#[trigger] ch[k].name_chirho@)
            implies listed_name(ls, ch[k].name_chirho@) by {
            if k < ch.len() - 1 {
                assert(ch[k] == ch.drop_last()[k]);
                let j = choose|j: int| 0 <= j < prev.len() && (#[trigger] prev[j]).0 == ch[k].name_chirho@;
                assert(ls[j] == prev[j]);
            } else if listed_name(prev, c.name_chirho@) {
                let j = choose|j: int| 0 <= j < prev.len() && (#[trigger] prev[j]).0 == c.name_chirho@;
                assert(ls[j] == prev[j]);
            } else {
                assert(ls[prev.len() as int].0 == c.name_chirho@);
            }
        }
        if !(ws.contains(c.name_chirho@) || listed_name(prev, c.name_chirho@)) {
            assert(!listed_name(es, c.name_chirho@)) by {
                if listed_name(es, c.name_chirho@) {
                    let j = choose|j: int| 0 <= j < es.len() && (#[trigger] es[j]).0 == c.name_chirho@;
                    assert(prev[j] == es[j]);
                }
            }
        }
    }
}

/// The merged listing keeps two rules: the upper directory's
/// entries come first, as they are (upper entries override lower ones);
/// an entry taken from the lower directory has a name that no whiteout in
/// the upper directory hides and no upper entry already uses; and every
/// lower entry that no whiteout hides is listed under its name.
pub proof fn lemma_merged_listing(fs: OverlayFsChirho, cs: Seq<Seq<char>>)
    ensures
        ({
            let (es, ws) = match walk(fs.upper_chirho, cs) {
                Some(d) => upper_scan(d.children_chirho@),
                None => (Seq::empty(), Seq::empty()),
            };
            let m = merged_listing(fs, cs);
            &&& m.len() >= es.len()
            &&& forall|i: int| 0 <= i < es.len() ==> #[trigger] m[i] == es[i]
            &&& forall|i: int| es.len() <= i < m.len() ==> !ws.contains(#[trigger] m[i].0) && !listed_name(es, m[i].0)
            &&& walk(fs.lower_chirho, cs) matches Some(d) ==> forall|k: int| 0 <= k < d.children_chirho@.len()
                && !ws.contains(#[trigger] d.children_chirho@[k].name_chirho@) ==> listed_name(m, d.children_chirho@[k].name_chirho@)
        }),
{
    let (es, ws) = match walk(fs.upper_chirho, cs) {
        Some(d) => upper_scan(d.children_chirho@),
        None => (Seq::empty(), Seq::empty()),
    };
    match walk(fs.lower_chirho, cs) {
        Some(d) => lemma_lower_scan(d.children_chirho@, ws, es),
        None => {},
    }
}

/// The names and modes of a listing.
pub open spec fn listing_view(v: Seq<(String, u32)>) -> Seq<(Seq<char>, u32)> {
    v.map_values(|p: (String, u32)| (p.0@, p.1))
}

fn starts_with_wh_chirho(n_chirho: &String) -> (r: bool)
    ensures
        r == is_wh(n_chirho@),
{
    let st_chirho = n_chirho.as_str();
    let len_chirho = st_chirho.unicode_len();
    if len_chirho < 4 {
        return false;
    }
    let r = st_chirho.get_char(0) == '.' && st_chirho.get_char(1) == 'w' && st_chirho.get_char(2) == 'h'
        && st_chirho.get_char(3) == '.';
    proof {
        if r {
            assert(n_chirho@.subrange(0, 4) =~= wh_prefix());
        } else {
            if n_chirho@.subrange(0, 4) == wh_prefix() {
                assert(n_chirho@[0] == n_chirho@.subrange(0, 4)[0]);
                assert(n_chirho@[1] == n_chirho@.subrange(0, 4)[1]);
                assert(n_chirho@[2] == n_chirho@.subrange(0, 4)[2]);
                assert(n_chirho@[3] == n_chirho@.subrange(0, 4)[3]);
            }
        }
    }
    r
}

fn contains_name_chirho(v_chirho: &Vec<String>, n_chirho: &String) -> (r: bool)
    ensures
        r == names_of(v_chirho@).contains(n_chirho@),
{
    let mut i_chirho: usize = 0;
    while i_chirho < v_chirho.len()
        invariant
            i_chirho <= v_chirho@.len(),
            forall|j: int| 0 <= j < i_chirho ==> v_chirho@[j]@ != n_chirho@,
        decreases v_chirho@.len() - i_chirho,
    {
        if v_chirho[i_chirho] == *n_chirho {
            assert(names_of(v_chirho@)[i_chirho as int] == n_chirho@);
            return true;
        }
        i_chirho = i_chirho + 1;
    }
    proof {
        if names_of(v_chirho@).contains(n_chirho@) {
            let j = choose|j: int| 0 <= j < names_of(v_chirho@).len() && names_of(v_chirho@)[j] == n_chirho@;
            assert(v_chirho@[j]@ == n_chirho@);
        }
    }
    false
}

fn has_entry_chirho(v_chirho: &Vec<(String, u32)>, n_chirho: &String) -> (r: bool)
    ensures
        r == listed_name(listing_view(v_chirho@), n_chirho@),
{
    let mut i_chirho: usize = 0;
    while i_chirho < v_chirho.len()
        invariant
            i_chirho <= v_chirho@.len(),
            forall|j: int| 0 <= j < i_chirho ==> v_chirho@[j].0@ != n_chirho@,
        decreases v_chirho@.len() - i_chirho,
    {
        if v_chirho[i_chirho].0 == *n_chirho {
            assert(listing_view(v_chirho@)[i_chirho as int].0 == n_chirho@);
            return true;
        }
        i_chirho = i_chirho + 1;
    }
    proof {
        if listed_name(listing_view(v_chirho@), n_chirho@) {
            let j = choose|j: int| 0 <= j < listing_view(v_chirho@).len() && (#[trigger] listing_view(v_chirho@)[j]).0 == n_chirho@;
            assert(v_chirho@[j].0@ == n_chirho@);
        }
    }
    false
}

impl OverlayFsChirho {
    /// The merged listing of the directory at `path`, as `merged_listing`
    /// says: names and modes.
    pub fn readdir_merged_chirho(&self, path_chirho: &str) -> (r: Vec<(String, u32)>)
        ensures
            listing_view(r@) == merged_listing(*self, path_components(path_chirho@)),
    {
        let comps_chirho = split_path_chirho(path_chirho);
        let n_chirho = comps_chirho.len();
        assert(names_of(comps_chirho@).take(n_chirho as int) =~= path_components(path_chirho@));
        let mut entries_chirho: Vec<(String, u32)> = Vec::new();
        let mut whiteouts_chirho: Vec<String> = Vec::new();
        match walk_layer_chirho(&self.upper_chirho, &comps_chirho, n_chirho) {
            Some(dir_chirho) => {
                let ch_chirho = &dir_chirho.children_chirho;
                let mut i_chirho: usize = 0;
                while i_chirho < ch_chirho.len()
                    invariant
                        i_chirho <= ch_chirho@.len(),
                        (listing_view(entries_chirho@), names_of(whiteouts_chirho@)) == upper_scan(ch_chirho@.take(i_chirho as int)),
                    decreases ch_chirho@.len() - i_chirho,
                {
                    let c_chirho = &ch_chirho[i_chirho];
                    proof {
                        let pre = ch_chirho@.take(i_chirho + 1);
                        assert(pre.drop_last() =~= ch_chirho@.take(i_chirho as int));
                        assert(pre.last() == *c_chirho);
                    }
                    let wh_chirho = starts_with_wh_chirho(&c_chirho.name_chirho);
                    if c_chirho.is_whiteout_chirho || wh_chirho {
                        let target_chirho = if wh_chirho {
                            let st_chirho = c_chirho.name_chirho.as_str();
                            let len_chirho = st_chirho.unicode_len();
                            st_chirho.substring_char(4, len_chirho).to_owned()
                        } else {
                            c_chirho.name_chirho.clone()
                        };
                        let ghost w0 = names_of(whiteouts_chirho@);
                        whiteouts_chirho.push(target_chirho);
                        assert(names_of(whiteouts_chirho@) =~= w0.push(whiteout_target(*c_chirho)));
                    } else {
                        let ghost e0 = listing_view(entries_chirho@);
                        entries_chirho.push((c_chirho.name_chirho.clone(), c_chirho.mode_chirho));
                        assert(listing_view(entries_chirho@) =~= e0.push((c_chirho.name_chirho@, c_chirho.mode_chirho)));
                    }
                    i_chirho = i_chirho + 1;
                }
                assert(ch_chirho@.take(ch_chirho@.len() as int) =~= ch_chirho@);
            },
            None => {
                assert(listing_view(entries_chirho@) =~= Seq::<(Seq<char>, u32)>::empty());
                assert(names_of(whiteouts_chirho@) =~= Seq::<Seq<char>>::empty());
            },
        }
        let ghost es0 = listing_view(entries_chirho@);
        let ghost ws = names_of(whiteouts_chirho@);
        match walk_layer_chirho(&self.lower_chirho, &comps_chirho, n_chirho) {
            Some(dir_chirho) => {
                let ch_chirho = &dir_chirho.children_chirho;
                let mut i_chirho: usize = 0;
                while i_chirho < ch_chirho.len()
                    invariant
                        i_chirho <= ch_chirho@.len(),
                        ws == names_of(whiteouts_chirho@),
                        listing_view(entries_chirho@) == lower_scan(ch_chirho@.take(i_chirho as int), ws, es0),
                    decreases ch_chirho@.len() - i_chirho,
                {
                    let c_chirho = &ch_chirho[i_chirho];
                    proof {
                        let pre = ch_chirho@.take(i_chirho + 1);
                        assert(pre.drop_last() =~= ch_chirho@.take(i_chirho as int));
                        assert(pre.last() == *c_chirho);
                    }
                    let hidden_chirho = contains_name_chirho(&whiteouts_chirho, &c_chirho.name_chirho);
                    let shadowed_chirho = has_entry_chirho(&entries_chirho, &c_chirho.name_chirho);
                    if !hidden_chirho && !shadowed_chirho {
                        let ghost e0 = listing_view(entries_chirho@);
                        entries_chirho.push((c_chirho.name_chirho.clone(), c_chirho.mode_chirho));
                        assert(listing_view(entries_chirho@) =~= e0.push((c_chirho.name_chirho@, c_chirho.mode_chirho)));
                    }
                    i_chirho = i_chirho + 1;
                }
                assert(ch_chirho@.take(ch_chirho@.len() as int) =~= ch_chirho@);
            },
            None => {},
        }
        entries_chirho
    }
}

pub const ENOSYS_OVL_CHIRHO: i64 = 38;
pub const SEEK_SET_CHIRHO: u32 = 0;
pub const SEEK_CUR_CHIRHO: u32 = 1;
pub const SEEK_END_CHIRHO: u32 = 2;
/// Directory-entry type of a directory.
pub const DT_DIR_CHIRHO: u8 = 4;
/// Directory-entry type of a regular file.
pub const DT_REG_CHIRHO: u8 = 8;

/// What an overlay inode carries: its path, the layer it came from, the
/// content of a file, and the entries of a directory (name, inode number,
/// mode).
pub struct OverlayDataChirho {
    pub path_chirho: String,
    pub origin_chirho: OverlayOriginChirho,
    pub content_chirho: Vec<u8>,
    pub children_chirho: Vec<(String, u64, u32)>,
}

/// The inode operations of the overlay.
pub struct OverlayInodeOpsChirho;

/// The file operations of the overlay.
pub struct OverlayFileOpsChirho;

/// The first entry named `name` among `ch`.
pub open spec fn data_child(ch: Seq<(String, u64, u32)>, name: Seq<char>, k: int) -> bool {
    &&& 0 <= k < ch.len()
    &&& ch[k].0@ == name
    &&& forall|j: int| 0 <= j < k ==> (#[trigger] ch[j]).0@ != name
}

/// A fresh inode's data: the name as its path, upper layer, no content,
/// no entries.
pub open spec fn fresh_data(d: OverlayDataChirho, name: Seq<char>) -> bool {
    &&& d.path_chirho@ == name
    &&& d.origin_chirho == OverlayOriginChirho::UpperChirho
    &&& d.content_chirho@.len() == 0
    &&& d.children_chirho@.len() == 0
}

/// A new inode number from the counter, which then advances (wrapping).
fn alloc_ovl_ino_chirho(counter_chirho: &mut u64) -> (r: u64)
    ensures
        r == *old(counter_chirho),
        *final(counter_chirho) == (if *old(counter_chirho) == u64::MAX { 0 } else { *old(counter_chirho) + 1 }),
{
    let v_chirho = *counter_chirho;
    *counter_chirho = if v_chirho == u64::MAX { 0 } else { v_chirho + 1 };
    v_chirho
}

impl OverlayInodeOpsChirho {
    /// Look `name` up in a directory inode's data: the inode number and
    /// mode of its first entry of that name; `-ENOENT` without data or
    /// without such an entry.
    pub fn lookup_chirho(&self, data_chirho: Option<&OverlayDataChirho>, name_chirho: &str) -> (r: Result<(u64, u32), i64>)
        ensures
            data_chirho is None ==> (r matches Err(e) && e == -ENOENT_OVL_CHIRHO),
            data_chirho matches Some(d) ==> {
                &&& (forall|j: int| 0 <= j < d.children_chirho@.len() ==> (#[trigger] d.children_chirho@[j]).0@ != name_chirho@)
                    ==> (r matches Err(e) && e == -ENOENT_OVL_CHIRHO)
                &&& forall|k: int| data_child(d.children_chirho@, name_chirho@, k)
                    ==> r == Ok::<(u64, u32), i64>((d.children_chirho@[k].1, d.children_chirho@[k].2))
            },
    {
        let d_chirho = match data_chirho {
            None => return Err(-ENOENT_OVL_CHIRHO),
            Some(d_chirho) => d_chirho,
        };
        let n_chirho = name_chirho.to_owned();
        let mut i_chirho: usize = 0;
        while i_chirho < d_chirho.children_chirho.len()
            invariant
                i_chirho <= d_chirho.children_chirho@.len(),
                n_chirho@ == name_chirho@,
                data_chirho == Some(d_chirho),
                forall|j: int| 0 <= j < i_chirho ==> (#[trigger] d_chirho.children_chirho@[j]).0@ != name_chirho@,
            decreases d_chirho.children_chirho@.len() - i_chirho,
        {
            let entry_chirho = &d_chirho.children_chirho[i_chirho];
            if entry_chirho.0 == n_chirho {
                proof {
                    assert forall|k: int| data_child(d_chirho.children_chirho@, name_chirho@, k) implies k == i_chirho by {
                        if k < i_chirho {
                        } else if k > i_chirho {
                            assert(d_chirho.children_chirho@[i_chirho as int].0@ != name_chirho@);
                        }
                    }
                }
                return Ok((d_chirho.children_chirho[i_chirho].1, d_chirho.children_chirho[i_chirho].2));
            }
            i_chirho = i_chirho + 1;
        }
        Err(-ENOENT_OVL_CHIRHO)
    }

    /// A new regular-file inode named `name`: a fresh inode number, the
    /// file mode, and fresh data.
    pub fn create_chirho(&self, counter_chirho: &mut u64, name_chirho: &str, mode_chirho: u32) -> (r: (u64, u32, OverlayDataChirho))
        ensures
            r.0 == *old(counter_chirho),
            *final(counter_chirho) == (if *old(counter_chirho) == u64::MAX { 0 } else { *old(counter_chirho) + 1 }),
            r.1 == S_IFREG_CHIRHO | (mode_chirho & 0o7777),
            fresh_data(r.2, name_chirho@),
    {
        let ino_chirho = alloc_ovl_ino_chirho(counter_chirho);
        let data_chirho = OverlayDataChirho {
            path_chirho: name_chirho.to_owned(),
            origin_chirho: OverlayOriginChirho::UpperChirho,
            content_chirho: Vec::new(),
            children_chirho: Vec::new(),
        };
        (ino_chirho, S_IFREG_CHIRHO | (mode_chirho & 0o7777), data_chirho)
    }

    /// A new directory inode named `name`: a fresh inode number, the
    /// directory mode, and fresh data.
    pub fn mkdir_chirho(&self, counter_chirho: &mut u64, name_chirho: &str, mode_chirho: u32) -> (r: (u64, u32, OverlayDataChirho))
        ensures
            r.0 == *old(counter_chirho),
            *final(counter_chirho) == (if *old(counter_chirho) == u64::MAX { 0 } else { *old(counter_chirho) + 1 }),
            r.1 == S_IFDIR_CHIRHO | (mode_chirho & 0o7777),
            fresh_data(r.2, name_chirho@),
    {
        let ino_chirho = alloc_ovl_ino_chirho(counter_chirho);
        let data_chirho = OverlayDataChirho {
            path_chirho: name_chirho.to_owned(),
            origin_chirho: OverlayOriginChirho::UpperChirho,
            content_chirho: Vec::new(),
            children_chirho: Vec::new(),
        };
        (ino_chirho, S_IFDIR_CHIRHO | (mode_chirho & 0o7777), data_chirho)
    }

    /// Unlinking succeeds and changes nothing here.
    pub fn unlink_chirho(&self) -> (r: Result<(), i64>)
        ensures
            r is Ok,
    {
        Ok(())
    }

    /// Removing a directory succeeds and changes nothing here.
    pub fn rmdir_chirho(&self) -> (r: Result<(), i64>)
        ensures
            r is Ok,
    {
        Ok(())
    }

    /// Overlay inodes are no symbolic links: `-EINVAL`.
    pub fn readlink_chirho(&self) -> (r: Result<String, i64>)
        ensures
            r matches Err(e) && e == -EINVAL_OVL_CHIRHO,
    {
        Err(-EINVAL_OVL_CHIRHO)
    }
}

/// What a read of up to `want` bytes at `pos` returns: the bytes from
/// `pos` on, cut to `want`; none at or past the end.
pub open spec fn read_bytes(content: Seq<u8>, pos: int, want: int) -> Seq<u8> {
    if pos >= content.len() {
        Seq::empty()
    } else {
        let n = if want < content.len() - pos { want } else { content.len() - pos };
        content.subrange(pos, pos + n)
    }
}

/// The content after writing `buf` at `pos`: zero-filled up to `pos` if
/// need be, `buf` at `pos`, the rest as before.
pub open spec fn written_content(content: Seq<u8>, pos: int, buf: Seq<u8>) -> Seq<u8> {
    let base = if pos + buf.len() > content.len() {
        content + Seq::new((pos + buf.len() - content.len()) as nat, |i: int| 0u8)
    } else {
        content
    };
    base.subrange(0, pos) + buf + base.subrange(pos + buf.len(), base.len() as int)
}

impl OverlayFileOpsChirho {
    /// Read up to `want` bytes at `pos` of a file's data: the bytes and
    /// the position after them.
    pub fn read_chirho(&self, data_chirho: &OverlayDataChirho, pos_chirho: u64, want_chirho: usize) -> (r: (Vec<u8>, u64))
        ensures
            r.0@ == read_bytes(data_chirho.content_chirho@, pos_chirho as int, want_chirho as int),
            r.1 == pos_chirho + r.0@.len(),
    {
        let c_chirho = &data_chirho.content_chirho;
        if pos_chirho >= c_chirho.len() as u64 {
            return (Vec::new(), pos_chirho);
        }
        let p_chirho = pos_chirho as usize;
        let avail_chirho = c_chirho.len() - p_chirho;
        let n_chirho = if want_chirho < avail_chirho { want_chirho } else { avail_chirho };
        let out_chirho = crate::bytes::copy_range_chirho(c_chirho.as_slice(), p_chirho, p_chirho + n_chirho);
        (out_chirho, pos_chirho + n_chirho as u64)
    }

    /// Write `buf` at `pos` of a file's data (a lower file is copied up
    /// first): the count and the position after it.
    pub fn write_chirho(&self, data_chirho: &mut OverlayDataChirho, pos_chirho: u64, buf_chirho: &[u8]) -> (r: (usize, u64))
        requires
            pos_chirho + buf_chirho@.len() <= usize::MAX,
            pos_chirho + buf_chirho@.len() <= u64::MAX,
        ensures
            final(data_chirho).origin_chirho == OverlayOriginChirho::UpperChirho,
            final(data_chirho).content_chirho@ == written_content(old(data_chirho).content_chirho@, pos_chirho as int, buf_chirho@),
            final(data_chirho).path_chirho == old(data_chirho).path_chirho,
            final(data_chirho).children_chirho == old(data_chirho).children_chirho,
            r.0 == buf_chirho@.len(),
            r.1 == pos_chirho + buf_chirho@.len(),
    {
        data_chirho.origin_chirho = OverlayOriginChirho::UpperChirho;
        let p_chirho = pos_chirho as usize;
        let end_chirho = p_chirho + buf_chirho.len();
        let ghost c0 = data_chirho.content_chirho@;
        while data_chirho.content_chirho.len() < end_chirho
            invariant
                c0 == old(data_chirho).content_chirho@,
                end_chirho == pos_chirho + buf_chirho@.len(),
                data_chirho.content_chirho@.len() <= (if end_chirho > c0.len() { end_chirho as int } else { c0.len() as int }),
                data_chirho.content_chirho@.subrange(0, c0.len() as int) == c0,
                forall|i: int| c0.len() <= i < data_chirho.content_chirho@.len() ==> data_chirho.content_chirho@[i] == 0u8,
                data_chirho.content_chirho@.len() >= c0.len(),
                data_chirho.origin_chirho == OverlayOriginChirho::UpperChirho,
                data_chirho.path_chirho == old(data_chirho).path_chirho,
                data_chirho.children_chirho == old(data_chirho).children_chirho,
            decreases end_chirho - data_chirho.content_chirho@.len(),
        {
            data_chirho.content_chirho.push(0);
        }
        let ghost base = data_chirho.content_chirho@;
        proof {
            let expect = if p_chirho + buf_chirho@.len() > c0.len() {
                c0 + Seq::new((p_chirho + buf_chirho@.len() - c0.len()) as nat, |i: int| 0u8)
            } else {
                c0
            };
            assert(base =~= expect);
        }
        let mut i_chirho: usize = 0;
        while i_chirho < buf_chirho.len()
            invariant
                i_chirho <= buf_chirho@.len(),
                end_chirho == p_chirho + buf_chirho@.len(),
                data_chirho.content_chirho@.len() == base.len(),
                base.len() >= end_chirho,
                forall|j: int| 0 <= j < data_chirho.content_chirho@.len() ==> data_chirho.content_chirho@[j] == (
                    if p_chirho <= j < p_chirho + i_chirho { buf_chirho@[j - p_chirho] } else { base[j] }),
                data_chirho.origin_chirho == OverlayOriginChirho::UpperChirho,
                data_chirho.path_chirho == old(data_chirho).path_chirho,
                data_chirho.children_chirho == old(data_chirho).children_chirho,
            decreases buf_chirho@.len() - i_chirho,
        {
            data_chirho.content_chirho.set(p_chirho + i_chirho, buf_chirho[i_chirho]);
            i_chirho = i_chirho + 1;
        }
        assert(data_chirho.content_chirho@ =~= base.subrange(0, p_chirho as int) + buf_chirho@
            + base.subrange(p_chirho + buf_chirho@.len(), base.len() as int));
        (buf_chirho.len(), pos_chirho + buf_chirho.len() as u64)
    }

    /// The new position of a seek by `offset` from the start, the current
    /// position `pos`, or the end `size`; `-EINVAL` for another `whence`.
    pub fn seek_chirho(&self, pos_chirho: u64, size_chirho: u64, offset_chirho: i64, whence_chirho: u32) -> (r: Result<u64, i64>)
        requires
            whence_chirho == SEEK_CUR_CHIRHO ==> i64::MIN <= (pos_chirho as i64) + offset_chirho <= i64::MAX,
            whence_chirho == SEEK_END_CHIRHO ==> i64::MIN <= (size_chirho as i64) + offset_chirho <= i64::MAX,
        ensures
            whence_chirho == SEEK_SET_CHIRHO ==> r == Ok::<u64, i64>(offset_chirho as u64),
            whence_chirho == SEEK_CUR_CHIRHO ==> r == Ok::<u64, i64>(((pos_chirho as i64) + offset_chirho) as u64),
            whence_chirho == SEEK_END_CHIRHO ==> r == Ok::<u64, i64>(((size_chirho as i64) + offset_chirho) as u64),
            whence_chirho > SEEK_END_CHIRHO ==> (r matches Err(e) && e == -EINVAL_OVL_CHIRHO),
    {
        if whence_chirho == SEEK_SET_CHIRHO {
            Ok(offset_chirho as u64)
        } else if whence_chirho == SEEK_CUR_CHIRHO {
            Ok(((pos_chirho as i64) + offset_chirho) as u64)
        } else if whence_chirho == SEEK_END_CHIRHO {
            Ok(((size_chirho as i64) + offset_chirho) as u64)
        } else {
            Err(-EINVAL_OVL_CHIRHO)
        }
    }

    /// Overlay files take no ioctls: `-ENOSYS`.
    pub fn ioctl_chirho(&self) -> (r: Result<i64, i64>)
        ensures
            r matches Err(e) && e == -ENOSYS_OVL_CHIRHO,
    {
        Err(-ENOSYS_OVL_CHIRHO)
    }

    /// The directory entries to report, in order: every entry whose name
    /// does not start with the whiteout prefix, with its inode number and
    /// type (directory when the mode has the directory bit, else regular).
    /// The caller hands them to its callback until it declines.
    pub fn readdir_chirho(&self, data_chirho: &OverlayDataChirho) -> (r: Vec<(String, u64, u8)>)
        ensures
            r@.len() <= data_chirho.children_chirho@.len(),
            readdir_view(r@) == readdir_spec(data_chirho.children_chirho@),
    {
        let ch_chirho = &data_chirho.children_chirho;
        let mut out_chirho: Vec<(String, u64, u8)> = Vec::new();
        let mut i_chirho: usize = 0;
        while i_chirho < ch_chirho.len()
            invariant
                i_chirho <= ch_chirho@.len(),
                out_chirho@.len() <= i_chirho,
                readdir_view(out_chirho@) == readdir_spec(ch_chirho@.take(i_chirho as int)),
            decreases ch_chirho@.len() - i_chirho,
        {
            let e_chirho = &ch_chirho[i_chirho];
            proof {
                let pre = ch_chirho@.take(i_chirho + 1);
                assert(pre.drop_last() =~= ch_chirho@.take(i_chirho as int));
                assert(pre.last() == *e_chirho);
            }
            if !starts_with_wh_chirho(&e_chirho.0) {
                let ty_chirho: u8 = if e_chirho.2 & S_IFDIR_CHIRHO != 0 { DT_DIR_CHIRHO } else { DT_REG_CHIRHO };
                let ghost o0 = readdir_view(out_chirho@);
                out_chirho.push((e_chirho.0.clone(), e_chirho.1, ty_chirho));
                assert(readdir_view(out_chirho@) =~= o0.push((e_chirho.0@, e_chirho.1, ty_chirho)));
            }
            i_chirho = i_chirho + 1;
        }
        assert(ch_chirho@.take(ch_chirho@.len() as int) =~= ch_chirho@);
        out_chirho
    }
}

/// The names, inode numbers and types of a directory listing.
pub open spec fn readdir_view(v: Seq<(String, u64, u8)>) -> Seq<(Seq<char>, u64, u8)> {
    v.map_values(|p: (String, u64, u8)| (p.0@, p.1, p.2))
}

/// The entries `readdir` reports for the entries `ch`.
pub open spec fn readdir_spec(ch: Seq<(String, u64, u32)>) -> Seq<(Seq<char>, u64, u8)>
    decreases ch.len(),
{
    if ch.len() == 0 {
        Seq::empty()
    } else {
        let prev = readdir_spec(ch.drop_last());
        let e = ch.last();
        if is_wh(e.0@) {
            prev
        } else {
            prev.push((e.0@, e.1, if e.2 & S_IFDIR_CHIRHO != 0 { DT_DIR_CHIRHO } else { DT_REG_CHIRHO }))
        }
    }
}

} // verus!
