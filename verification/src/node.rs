//! Owned representation of `mpv_node` values.

use vstd::prelude::*;
use vstd::slice::slice_subrange;
use vstd::slice::slice_to_vec;
use vstd::std_specs::convert::FromSpecImpl;
use vstd::utf8::{encode_utf8, valid_utf8};

use crate::cstring;
use crate::cstring::{cstr, CString};
use crate::error::{Error, Result};
use crate::sys;
use crate::sys::{mpv_byte_array, mpv_node, mpv_node_list, mpv_node_u, Double};

verus! {

/// An owned, structured mpv value (the counterpart of [`mpv_node`]).
///
/// Used for structured property access, structured commands, and command
/// results.
#[derive(Debug)]
pub enum Node {
    /// Empty value.
    Empty,
    /// A boolean flag.
    Flag(bool),
    /// A 64-bit integer.
    Int64(i64),
    /// A double.
    Double(Double),
    /// A string. mpv strings are not guaranteed to be UTF-8 (filenames,
    /// tags); values read from mpv are converted lossily.
    String(String),
    /// An array of values.
    Array(Vec<Node>),
    /// A map. Key order is not meaningful (mpv returns keys in random
    /// order); duplicate keys are not allowed.
    NodeMap(Vec<(String, Node)>),
    /// A raw byte array.
    ByteArray(Vec<u8>),
}

/// The value of a [`Node`].
pub enum NodeView {
    Empty,
    Flag(bool),
    Int64(i64),
    Double(Double),
    String(Seq<char>),
    Array(Seq<NodeView>),
    NodeMap(Seq<(Seq<char>, NodeView)>),
    ByteArray(Seq<u8>),
}

/// The value of `node`.
pub open spec fn node_view(node: Node) -> NodeView
    decreases node,
{
    match node {
        Node::Empty => NodeView::Empty,
        Node::Flag(v) => NodeView::Flag(v),
        Node::Int64(v) => NodeView::Int64(v),
        Node::Double(v) => NodeView::Double(v),
        Node::String(s) => NodeView::String(s@),
        Node::Array(items) => NodeView::Array(
            Seq::new(
                items@.len(),
                |i: int|
                    if 0 <= i < items@.len() {
                        node_view(items@[i])
                    } else {
                        NodeView::Empty
                    },
            ),
        ),
        Node::NodeMap(entries) => NodeView::NodeMap(
            Seq::new(
                entries@.len(),
                |i: int|
                    if 0 <= i < entries@.len() {
                        (entries@[i].0@, node_view(entries@[i].1))
                    } else {
                        (Seq::empty(), NodeView::Empty)
                    },
            ),
        ),
        Node::ByteArray(data) => NodeView::ByteArray(data@),
    }
}

impl View for Node {
    type V = NodeView;

    open spec fn view(&self) -> NodeView {
        node_view(*self)
    }
}

impl NodeView {
    /// Whether some string or key of the value holds a NUL character.
    pub open spec fn has_interior_nul(self) -> bool
        decreases self,
    {
        match self {
            NodeView::String(s) => cstring::has_nul(s),
            NodeView::Array(items) => exists|i: int|
                0 <= i < items.len() && (#[trigger] items[i]).has_interior_nul(),
            NodeView::NodeMap(entries) => exists|i: int|
                0 <= i < entries.len() && (cstring::has_nul((#[trigger] entries[i]).0)
                    || entries[i].1.has_interior_nul()),
            _ => false,
        }
    }

    /// Whether the number of entries of every array and map of the value can
    /// be written in the `int` that counts them.
    pub open spec fn counts_fit(self) -> bool
        decreases self,
    {
        match self {
            NodeView::Array(items) => items.len() <= i32::MAX && forall|i: int|
                0 <= i < items.len() ==> (#[trigger] items[i]).counts_fit(),
            NodeView::NodeMap(entries) => entries.len() <= i32::MAX && forall|i: int|
                0 <= i < entries.len() ==> (#[trigger] entries[i]).1.counts_fit(),
            _ => true,
        }
    }
}

/// The allocations of a raw [`mpv_node`] tree.
///
/// A raw node refers to its strings, lists and bytes by their index here. The
/// storage only grows, so what a node refers to stays valid, and unchanged,
/// while more is added.
pub struct NodeStorage {
    strings: Vec<CString>,
    lists: Vec<mpv_node_list>,
    node_arrays: Vec<Vec<mpv_node>>,
    key_arrays: Vec<Vec<usize>>,
    byte_arrays: Vec<mpv_byte_array>,
    bytes: Vec<Vec<u8>>,
}

/// Whether `old` is the start of `new`.
pub open spec fn grown<T>(old: Seq<T>, new: Seq<T>) -> bool {
    &&& old.len() <= new.len()
    &&& forall|i: int| 0 <= i < old.len() ==> #[trigger] new[i] == old[i]
}

impl NodeStorage {
    /// The C strings.
    pub closed spec fn strings(self) -> Seq<CString> {
        self.strings@
    }

    /// The lists.
    pub closed spec fn lists(self) -> Seq<mpv_node_list> {
        self.lists@
    }

    /// The node arrays.
    pub closed spec fn node_arrays(self) -> Seq<Vec<mpv_node>> {
        self.node_arrays@
    }

    /// The key arrays.
    pub closed spec fn key_arrays(self) -> Seq<Vec<usize>> {
        self.key_arrays@
    }

    /// The byte array headers.
    pub closed spec fn byte_arrays(self) -> Seq<mpv_byte_array> {
        self.byte_arrays@
    }

    /// The byte blocks.
    pub closed spec fn bytes(self) -> Seq<Vec<u8>> {
        self.bytes@
    }

    /// Whether everything in `old` is unchanged in this storage.
    pub open spec fn extends(self, old: NodeStorage) -> bool {
        &&& grown(old.strings(), self.strings())
        &&& grown(old.lists(), self.lists())
        &&& grown(old.node_arrays(), self.node_arrays())
        &&& grown(old.key_arrays(), self.key_arrays())
        &&& grown(old.byte_arrays(), self.byte_arrays())
        &&& grown(old.bytes(), self.bytes())
    }

    /// Whether the first `num` values of a list, and keys if it is a map's,
    /// can be read.
    pub open spec fn list_valid(self, list: mpv_node_list, map: bool) -> bool {
        list.num > 0 ==> {
            &&& list.values matches Some(a) && a < self.node_arrays().len() && list.num
                <= self.node_arrays()[a as int]@.len()
            &&& map ==> {
                &&& list.keys matches Some(k) && k < self.key_arrays().len() && list.num
                    <= self.key_arrays()[k as int]@.len()
                &&& forall|i: int|
                    0 <= i < list.num ==> (#[trigger] self.key_arrays()[list.keys->0 as int]@[i])
                        < self.strings().len()
            }
        }
    }

    /// Whether `raw` is a fully initialized node: the member of its union that
    /// its format selects was written, and what it refers to is in the storage.
    pub open spec fn valid(self, raw: mpv_node) -> bool {
        if raw.format == sys::MPV_FORMAT_FLAG {
            raw.u is flag
        } else if raw.format == sys::MPV_FORMAT_INT64 {
            raw.u is int64
        } else if raw.format == sys::MPV_FORMAT_DOUBLE {
            raw.u is double_
        } else if raw.format == sys::MPV_FORMAT_STRING {
            raw.u matches mpv_node_u::string(p) && p < self.strings().len()
        } else if raw.format == sys::MPV_FORMAT_NODE_ARRAY {
            raw.u matches mpv_node_u::list(p) && p < self.lists().len() && self.list_valid(
                self.lists()[p as int],
                false,
            )
        } else if raw.format == sys::MPV_FORMAT_NODE_MAP {
            raw.u matches mpv_node_u::list(p) && p < self.lists().len() && self.list_valid(
                self.lists()[p as int],
                true,
            )
        } else if raw.format == sys::MPV_FORMAT_BYTE_ARRAY {
            raw.u matches mpv_node_u::ba(p) && p < self.byte_arrays().len() && {
                let ba = self.byte_arrays()[p as int];
                ba.size > 0 ==> (ba.data matches Some(d) && d < self.bytes().len() && ba.size
                    <= self.bytes()[d as int]@.len())
            }
        } else {
            true
        }
    }

    /// A bound on the height of the tree at `raw`: one more than the index of
    /// the node array that holds its children, or `0` without children.
    pub open spec fn rank(self, raw: mpv_node) -> nat {
        if raw.format == sys::MPV_FORMAT_NODE_ARRAY || raw.format == sys::MPV_FORMAT_NODE_MAP {
            match raw.u {
                mpv_node_u::list(p) => {
                    let list = self.lists()[p as int];
                    if list.num > 0 && list.values is Some {
                        (list.values->0 + 1) as nat
                    } else {
                        0
                    }
                },
                _ => 0,
            }
        } else {
            0
        }
    }

    /// Whether the stored nodes are valid and form trees: a node array was
    /// added after the node arrays that its nodes refer to.
    pub open spec fn wf(self) -> bool {
        forall|a: int, i: int|
            0 <= a < self.node_arrays().len() && 0 <= i < self.node_arrays()[a]@.len() ==> {
                &&& self.valid(#[trigger] self.node_arrays()[a]@[i])
                &&& self.rank(self.node_arrays()[a]@[i]) <= a
            }
    }

    /// Whether `raw` is the C representation of `v` in this storage.
    pub open spec fn encodes(self, raw: mpv_node, v: NodeView) -> bool
        decreases v,
    {
        match v {
            NodeView::Empty => raw.format == sys::MPV_FORMAT_NONE && raw.u == mpv_node_u::int64(0),
            NodeView::Flag(b) => raw.format == sys::MPV_FORMAT_FLAG && raw.u == mpv_node_u::flag(
                if b {
                    1
                } else {
                    0
                },
            ),
            NodeView::Int64(n) => raw.format == sys::MPV_FORMAT_INT64 && raw.u
                == mpv_node_u::int64(n),
            NodeView::Double(d) => raw.format == sys::MPV_FORMAT_DOUBLE && raw.u
                == mpv_node_u::double_(d),
            NodeView::String(s) => {
                &&& raw.format == sys::MPV_FORMAT_STRING
                &&& raw.u matches mpv_node_u::string(p)
                &&& self.string_encodes(p, s)
            },
            NodeView::Array(items) => {
                &&& raw.format == sys::MPV_FORMAT_NODE_ARRAY
                &&& raw.u matches mpv_node_u::list(p)
                &&& p < self.lists().len()
                &&& self.lists()[p as int].num == items.len() as i32
                &&& self.lists()[p as int].keys is None
                &&& self.lists()[p as int].values matches Some(a)
                &&& a < self.node_arrays().len()
                &&& self.node_arrays()[a as int]@.len() == items.len()
                &&& forall|i: int|
                    0 <= i < items.len() ==> self.encodes(
                        #[trigger] self.node_arrays()[a as int]@[i],
                        items[i],
                    )
            },
            NodeView::NodeMap(entries) => {
                &&& raw.format == sys::MPV_FORMAT_NODE_MAP
                &&& raw.u matches mpv_node_u::list(p)
                &&& p < self.lists().len()
                &&& self.lists()[p as int].num == entries.len() as i32
                &&& self.lists()[p as int].keys matches Some(k)
                &&& k < self.key_arrays().len()
                &&& self.key_arrays()[k as int]@.len() == entries.len()
                &&& forall|i: int|
                    0 <= i < entries.len() ==> self.string_encodes(
                        #[trigger] self.key_arrays()[k as int]@[i],
                        entries[i].0,
                    )
                &&& self.lists()[p as int].values matches Some(a)
                &&& a < self.node_arrays().len()
                &&& self.node_arrays()[a as int]@.len() == entries.len()
                &&& forall|i: int|
                    0 <= i < entries.len() ==> self.encodes(
                        #[trigger] self.node_arrays()[a as int]@[i],
                        entries[i].1,
                    )
            },
            NodeView::ByteArray(data) => {
                &&& raw.format == sys::MPV_FORMAT_BYTE_ARRAY
                &&& raw.u matches mpv_node_u::ba(p)
                &&& p < self.byte_arrays().len()
                &&& self.byte_arrays()[p as int].size == data.len()
                &&& self.byte_arrays()[p as int].data matches Some(d)
                &&& d < self.bytes().len()
                &&& self.bytes()[d as int]@ == data
            },
        }
    }

    /// Whether the string at `p` is the C string of `s`.
    pub open spec fn string_encodes(self, p: usize, s: Seq<char>) -> bool {
        p < self.strings().len() && self.strings()[p as int]@ == encode_utf8(s)
    }

    /// The text of the string at `p`.
    pub open spec fn text(self, p: usize) -> Seq<char> {
        cstring::lossy_text(self.strings()[p as int]@)
    }

    /// How many entries of a list are read.
    pub open spec fn entries(list: mpv_node_list) -> nat {
        if list.num > 0 {
            list.num as nat
        } else {
            0
        }
    }

    /// The value of the tree at `raw`.
    pub open spec fn read(self, raw: mpv_node) -> NodeView
        decreases self.rank(raw),
    {
        if raw.format == sys::MPV_FORMAT_FLAG {
            NodeView::Flag(raw.u->flag_0 != 0)
        } else if raw.format == sys::MPV_FORMAT_INT64 {
            NodeView::Int64(raw.u->int64_0)
        } else if raw.format == sys::MPV_FORMAT_DOUBLE {
            NodeView::Double(raw.u->double__0)
        } else if raw.format == sys::MPV_FORMAT_STRING {
            NodeView::String(self.text(raw.u->string_0))
        } else if raw.format == sys::MPV_FORMAT_NODE_ARRAY {
            let list = self.lists()[raw.u->list_0 as int];
            let values = self.node_arrays()[list.values->0 as int]@;
            NodeView::Array(
                Seq::new(
                    Self::entries(list),
                    |i: int|
                        if self.rank(values[i]) < self.rank(raw) {
                            self.read(values[i])
                        } else {
                            NodeView::Empty
                        },
                ),
            )
        } else if raw.format == sys::MPV_FORMAT_NODE_MAP {
            let list = self.lists()[raw.u->list_0 as int];
            let values = self.node_arrays()[list.values->0 as int]@;
            let keys = self.key_arrays()[list.keys->0 as int]@;
            NodeView::NodeMap(
                Seq::new(
                    Self::entries(list),
                    |i: int|
                        (
                            self.text(keys[i]),
                            if self.rank(values[i]) < self.rank(raw) {
                                self.read(values[i])
                            } else {
                                NodeView::Empty
                            },
                        ),
                ),
            )
        } else if raw.format == sys::MPV_FORMAT_BYTE_ARRAY {
            let ba = self.byte_arrays()[raw.u->ba_0 as int];
            NodeView::ByteArray(
                if ba.size == 0 {
                    Seq::empty()
                } else {
                    self.bytes()[ba.data->0 as int]@.take(ba.size as int)
                },
            )
        } else {
            NodeView::Empty
        }
    }
}

impl NodeStorage {
    /// A storage without allocations.
    pub fn new() -> (storage: NodeStorage)
        ensures
            storage.wf(),
            storage.strings().len() == 0,
            storage.lists().len() == 0,
            storage.node_arrays().len() == 0,
            storage.key_arrays().len() == 0,
            storage.byte_arrays().len() == 0,
            storage.bytes().len() == 0,
    {
        NodeStorage {
            strings: Vec::new(),
            lists: Vec::new(),
            node_arrays: Vec::new(),
            key_arrays: Vec::new(),
            byte_arrays: Vec::new(),
            bytes: Vec::new(),
        }
    }

    /// Keep a C string; returns its index.
    pub fn push_string(&mut self, c: CString) -> (p: usize)
        requires
            old(self).wf(),
        ensures
            final(self).wf(),
            final(self).extends(*old(self)),
            p == old(self).strings().len(),
            final(self).strings() == old(self).strings().push(c),
            final(self).lists() == old(self).lists(),
            final(self).node_arrays() == old(self).node_arrays(),
            final(self).key_arrays() == old(self).key_arrays(),
            final(self).byte_arrays() == old(self).byte_arrays(),
            final(self).bytes() == old(self).bytes(),
    {
        let p = self.strings.len();
        self.strings.push(c);
        proof {
            lemma_wf_extends(*old(self), *self);
        }
        p
    }

    /// Keep the header and the bytes of a byte array; returns the index of the
    /// header.
    pub fn push_byte_array(&mut self, data: Vec<u8>) -> (p: usize)
        requires
            old(self).wf(),
        ensures
            final(self).wf(),
            final(self).extends(*old(self)),
            p == old(self).byte_arrays().len(),
            final(self).byte_arrays() == old(self).byte_arrays().push(
                mpv_byte_array {
                    data: Some(old(self).bytes().len() as usize),
                    size: data@.len() as usize,
                },
            ),
            final(self).bytes() == old(self).bytes().push(data),
            final(self).strings() == old(self).strings(),
            final(self).lists() == old(self).lists(),
            final(self).node_arrays() == old(self).node_arrays(),
            final(self).key_arrays() == old(self).key_arrays(),
            data@.len() <= usize::MAX,
            old(self).bytes().len() <= usize::MAX,
    {
        let size = data.len();
        let d = self.bytes.len();
        let p = self.byte_arrays.len();
        self.bytes.push(data);
        self.byte_arrays.push(mpv_byte_array { data: Some(d), size });
        proof {
            lemma_wf_extends(*old(self), *self);
        }
        p
    }

    /// Keep a list with its values, and its keys if it is a map's; returns the
    /// index of the list.
    pub fn push_list(&mut self, num: i32, values: Vec<mpv_node>, keys: Option<Vec<usize>>) -> (p:
        usize)
        requires
            old(self).wf(),
            forall|i: int| 0 <= i < values@.len() ==> old(self).valid(#[trigger] values@[i]),
        ensures
            final(self).wf(),
            final(self).extends(*old(self)),
            p == old(self).lists().len(),
            final(self).lists() == old(self).lists().push(
                mpv_node_list {
                    num,
                    values: Some(old(self).node_arrays().len() as usize),
                    keys: match keys {
                        Some(_) => Some(old(self).key_arrays().len() as usize),
                        None => None,
                    },
                },
            ),
            final(self).node_arrays() == old(self).node_arrays().push(values),
            final(self).key_arrays() == (match keys {
                Some(keys) => old(self).key_arrays().push(keys),
                None => old(self).key_arrays(),
            }),
            final(self).byte_arrays() == old(self).byte_arrays(),
            final(self).bytes() == old(self).bytes(),
            old(self).node_arrays().len() <= usize::MAX,
            old(self).key_arrays().len() <= usize::MAX,
            final(self).strings() == old(self).strings(),
    {
        let a = self.node_arrays.len();
        let p = self.lists.len();
        let k = self.key_arrays.len();
        self.node_arrays.push(values);
        let keys = match keys {
            Some(keys) => {
                self.key_arrays.push(keys);
                Some(k)
            },
            None => None,
        };
        self.lists.push(mpv_node_list { num, values: Some(a), keys });
        proof {
            lemma_wf_push_array(*old(self), *self, values);
        }
        p
    }

    /// The text of the string at `p`.
    pub fn string_at(&self, p: usize) -> (s: String)
        requires
            p < self.strings().len(),
        ensures
            s@ == self.text(p),
    {
        self.strings[p].to_string_lossy()
    }

    /// The C string at `p`.
    pub fn c_string_at(&self, p: usize) -> (c: &CString)
        requires
            p < self.strings().len(),
        ensures
            *c == self.strings()[p as int],
    {
        &self.strings[p]
    }

    /// The list at `p`.
    pub fn list_at(&self, p: usize) -> (list: mpv_node_list)
        requires
            p < self.lists().len(),
        ensures
            list == self.lists()[p as int],
    {
        self.lists[p]
    }

    /// The node array at `a`.
    pub fn nodes_at(&self, a: usize) -> (nodes: &[mpv_node])
        requires
            a < self.node_arrays().len(),
        ensures
            nodes@ == self.node_arrays()[a as int]@,
    {
        self.node_arrays[a].as_slice()
    }

    /// The key array at `k`.
    pub fn keys_at(&self, k: usize) -> (keys: &[usize])
        requires
            k < self.key_arrays().len(),
        ensures
            keys@ == self.key_arrays()[k as int]@,
    {
        self.key_arrays[k].as_slice()
    }

    /// The header of the byte array at `p`.
    pub fn byte_array_at(&self, p: usize) -> (ba: mpv_byte_array)
        requires
            p < self.byte_arrays().len(),
        ensures
            ba == self.byte_arrays()[p as int],
    {
        self.byte_arrays[p]
    }

    /// The byte block at `d`.
    pub fn bytes_at(&self, d: usize) -> (bytes: &[u8])
        requires
            d < self.bytes().len(),
        ensures
            bytes@ == self.bytes()[d as int]@,
    {
        self.bytes[d].as_slice()
    }

    /// Encode `s` and keep it; returns the index of the string.
    fn cstring(&mut self, s: &str) -> (r: Result<usize>)
        requires
            old(self).wf(),
        ensures
            final(self).wf(),
            final(self).extends(*old(self)),
            r is Err <==> cstring::has_nul(s@),
            r matches Err(e) ==> e == Error::InteriorNul,
            r matches Ok(p) ==> final(self).string_encodes(p, s@),
    {
        match cstr(s) {
            Ok(c) => Ok(self.push_string(c)),
            Err(e) => Err(e),
        }
    }

    /// Build the raw representation of `node`, keeping its allocations here.
    pub fn build(&mut self, node: &Node) -> (r: Result<mpv_node>)
        requires
            old(self).wf(),
        ensures
            final(self).wf(),
            final(self).extends(*old(self)),
            r is Err <==> node@.has_interior_nul(),
            r matches Err(e) ==> e == Error::InteriorNul,
            r matches Ok(raw) ==> final(self).encodes(raw, node@) && final(self).valid(raw),
        decreases node,
    {
        match node {
            Node::Empty => Ok(
                mpv_node { u: mpv_node_u::int64(0), format: sys::MPV_FORMAT_NONE },
            ),
            Node::Flag(v) => Ok(
                mpv_node {
                    u: mpv_node_u::flag(
                        if *v {
                            1
                        } else {
                            0
                        },
                    ),
                    format: sys::MPV_FORMAT_FLAG,
                },
            ),
            Node::Int64(v) => Ok(
                mpv_node { u: mpv_node_u::int64(*v), format: sys::MPV_FORMAT_INT64 },
            ),
            Node::Double(v) => Ok(
                mpv_node { u: mpv_node_u::double_(*v), format: sys::MPV_FORMAT_DOUBLE },
            ),
            Node::String(s) => match self.cstring(s.as_str()) {
                Ok(p) => Ok(mpv_node { u: mpv_node_u::string(p), format: sys::MPV_FORMAT_STRING }),
                Err(e) => Err(e),
            },
            Node::Array(items) => {
                let mut values: Vec<mpv_node> = Vec::new();
                let ghost v = node@->Array_0;
                for i in 0..items.len()
                    invariant
                        self.wf(),
                        self.extends(*old(self)),
                        node == Node::Array(*items),
                        v == node@->Array_0,
                        values@.len() == i,
                        forall|j: int|
                            0 <= j < i ==> {
                                &&& self.encodes(#[trigger] values@[j], v[j])
                                &&& self.valid(values@[j])
                                &&& !v[j].has_interior_nul()
                            },
                {
                    let ghost before = *self;
                    assert(items@[i as int]@ == v[i as int]);
                    match self.build(&items[i]) {
                        Ok(raw) => {
                            proof {
                                assert forall|j: int| 0 <= j < i implies {
                                    &&& self.encodes(#[trigger] values@[j], v[j])
                                    &&& self.valid(values@[j])
                                } by {
                                    lemma_encodes_extends(before, *self, values@[j], v[j]);
                                    lemma_valid_extends(before, *self, values@[j]);
                                }
                            }
                            values.push(raw);
                        },
                        Err(e) => {
                            assert(v[i as int].has_interior_nul());
                            return Err(e);
                        },
                    }
                }
                let ghost before = *self;
                let ghost nodes = values@;
                let num = #[verifier::truncate]
                (items.len() as i32);
                let p = self.push_list(num, values, None);
                let raw = mpv_node { u: mpv_node_u::list(p), format: sys::MPV_FORMAT_NODE_ARRAY };
                proof {
                    lemma_truncated_count(items.len());
                    assert forall|i: int| 0 <= i < v.len() implies self.encodes(
                        #[trigger] nodes[i],
                        v[i],
                    ) by {
                        lemma_encodes_extends(before, *self, nodes[i], v[i]);
                    }
                    let a = self.lists()[p as int].values->0;
                    assert(self.node_arrays()[a as int]@ == nodes);
                    assert forall|i: int| 0 <= i < v.len() implies !(
                    #[trigger] v[i]).has_interior_nul() by {
                        assert(before.valid(nodes[i]));
                    }
                }
                Ok(raw)
            },
            Node::NodeMap(entries) => {
                let mut values: Vec<mpv_node> = Vec::new();
                let mut keys: Vec<usize> = Vec::new();
                let ghost v = node@->NodeMap_0;
                let mut i: usize = 0;
                while i < entries.len()
                    invariant
                        i <= entries@.len(),
                        entries@.len() == v.len(),
                        self.wf(),
                        self.extends(*old(self)),
                        node == Node::NodeMap(*entries),
                        v == node@->NodeMap_0,
                        values@.len() == i,
                        keys@.len() == i,
                        forall|j: int|
                            0 <= j < i ==> {
                                &&& self.encodes(#[trigger] values@[j], v[j].1)
                                &&& self.valid(values@[j])
                                &&& !v[j].1.has_interior_nul()
                            },
                        forall|j: int|
                            0 <= j < i ==> {
                                &&& self.string_encodes(#[trigger] keys@[j], v[j].0)
                                &&& !cstring::has_nul(v[j].0)
                            },
                    decreases entries@.len() - i,
                {
                    let ghost before = *self;
                    let ghost names = keys@;
                    let entry = &entries[i];
                    assert(v[i as int] == (entry.0@, entry.1@));
                    let key: usize = match self.cstring(entry.0.as_str()) {
                        Ok(key) => key,
                        Err(e) => {
                            assert(cstring::has_nul(v[i as int].0));
                            return Err(e);
                        },
                    };
                    keys.push(key);
                    let raw: mpv_node = match self.build(&entry.1) {
                        Ok(raw) => raw,
                        Err(e) => {
                            assert(v[i as int].1.has_interior_nul());
                            return Err(e);
                        },
                    };
                    let ghost nodes = values@;
                    values.push(raw);
                    proof {
                        assert forall|j: int| 0 <= j < i + 1 implies {
                            &&& self.encodes(#[trigger] values@[j], v[j].1)
                            &&& self.valid(values@[j])
                            &&& !v[j].1.has_interior_nul()
                        } by {
                            if j < i {
                                assert(values@[j] == nodes[j]);
                                lemma_encodes_extends(before, *self, nodes[j], v[j].1);
                                lemma_valid_extends(before, *self, nodes[j]);
                            }
                        }
                        assert forall|j: int| 0 <= j < i + 1 implies {
                            &&& self.string_encodes(#[trigger] keys@[j], v[j].0)
                            &&& !cstring::has_nul(v[j].0)
                        } by {
                            if j < i {
                                assert(before.string_encodes(names[j], v[j].0));
                            }
                        }
                    }
                    i += 1;
                }
                let ghost before = *self;
                let ghost nodes = values@;
                let ghost names = keys@;
                let num = #[verifier::truncate]
                (entries.len() as i32);
                let p = self.push_list(num, values, Some(keys));
                let raw = mpv_node { u: mpv_node_u::list(p), format: sys::MPV_FORMAT_NODE_MAP };
                proof {
                    lemma_truncated_count(entries.len());
                    assert forall|i: int| 0 <= i < v.len() implies self.encodes(
                        #[trigger] nodes[i],
                        v[i].1,
                    ) by {
                        lemma_encodes_extends(before, *self, nodes[i], v[i].1);
                    }
                    let a = self.lists()[p as int].values->0;
                    let k = self.lists()[p as int].keys->0;
                    assert(self.node_arrays()[a as int]@ == nodes);
                    assert(self.key_arrays()[k as int]@ == names);
                    assert forall|i: int| 0 <= i < v.len() implies !cstring::has_nul((#[trigger] v[i]).0)
                        && !v[i].1.has_interior_nul() by {
                        assert(before.valid(nodes[i]));
                        assert(before.string_encodes(names[i], v[i].0));
                    }
                }
                Ok(raw)
            },
            Node::ByteArray(data) => {
                let p = self.push_byte_array(data.clone());
                Ok(mpv_node { u: mpv_node_u::ba(p), format: sys::MPV_FORMAT_BYTE_ARRAY })
            },
        }
    }
}

/// What is valid stays valid, with the same height bound, as a storage grows.
proof fn lemma_valid_extends(old: NodeStorage, new: NodeStorage, raw: mpv_node)
    requires
        new.extends(old),
        old.valid(raw),
    ensures
        new.valid(raw),
        new.rank(raw) == old.rank(raw),
{
}

/// A storage that grew in everything but its node arrays keeps its trees.
proof fn lemma_wf_extends(old: NodeStorage, new: NodeStorage)
    requires
        old.wf(),
        new.extends(old),
        new.node_arrays() == old.node_arrays(),
    ensures
        new.wf(),
{
    assert forall|a: int, i: int|
        0 <= a < new.node_arrays().len() && 0 <= i < new.node_arrays()[a]@.len() implies {
        &&& new.valid(#[trigger] new.node_arrays()[a]@[i])
        &&& new.rank(new.node_arrays()[a]@[i]) <= a
    } by {
        lemma_valid_extends(old, new, old.node_arrays()[a]@[i]);
    }
}

/// A storage keeps its trees when a node array with valid nodes is added.
proof fn lemma_wf_push_array(old: NodeStorage, new: NodeStorage, values: Vec<mpv_node>)
    requires
        old.wf(),
        new.extends(old),
        new.node_arrays() == old.node_arrays().push(values),
        forall|i: int| 0 <= i < values@.len() ==> old.valid(#[trigger] values@[i]),
    ensures
        new.wf(),
{
    assert forall|a: int, i: int|
        0 <= a < new.node_arrays().len() && 0 <= i < new.node_arrays()[a]@.len() implies {
        &&& new.valid(#[trigger] new.node_arrays()[a]@[i])
        &&& new.rank(new.node_arrays()[a]@[i]) <= a
    } by {
        if a < old.node_arrays().len() {
            lemma_valid_extends(old, new, old.node_arrays()[a]@[i]);
        } else {
            lemma_valid_extends(old, new, values@[i]);
        }
    }
}

/// A representation stays one as the storage grows.
proof fn lemma_encodes_extends(old: NodeStorage, new: NodeStorage, raw: mpv_node, v: NodeView)
    requires
        new.extends(old),
        old.encodes(raw, v),
    ensures
        new.encodes(raw, v),
    decreases v,
{
    match v {
        NodeView::Array(items) => {
            let a = old.lists()[raw.u->list_0 as int].values->0 as int;
            assert forall|i: int| 0 <= i < items.len() implies new.encodes(
                #[trigger] new.node_arrays()[a]@[i],
                items[i],
            ) by {
                lemma_encodes_extends(old, new, old.node_arrays()[a]@[i], items[i]);
            }
        },
        NodeView::NodeMap(entries) => {
            let a = old.lists()[raw.u->list_0 as int].values->0 as int;
            let k = old.lists()[raw.u->list_0 as int].keys->0 as int;
            assert forall|i: int| 0 <= i < entries.len() implies new.encodes(
                #[trigger] new.node_arrays()[a]@[i],
                entries[i].1,
            ) by {
                lemma_encodes_extends(old, new, old.node_arrays()[a]@[i], entries[i].1);
            }
            assert forall|i: int| 0 <= i < entries.len() implies new.string_encodes(
                #[trigger] new.key_arrays()[k]@[i],
                entries[i].0,
            ) by {
                assert(old.string_encodes(old.key_arrays()[k]@[i], entries[i].0));
            }
        },
        _ => {},
    }
}

/// A count cut to 32 bits is never more than the count.
proof fn lemma_truncated_count(n: usize)
    ensures
        (n as i32) <= n,
        n <= i32::MAX ==> n as i32 == n,
{
    assert((n as i32) <= n) by (bit_vector);
}

impl Node {
    /// Deep-copy the raw tree at `raw`, whose allocations are in `mem`, into an
    /// owned `Node`.
    pub fn from_raw(mem: &NodeStorage, raw: &mpv_node) -> (node: Node)
        requires
            mem.wf(),
            mem.valid(*raw),
        ensures
            node@ == mem.read(*raw),
        decreases mem.rank(*raw),
    {
        match raw.u {
            mpv_node_u::flag(flag) if raw.format == sys::MPV_FORMAT_FLAG => Node::Flag(flag != 0),
            mpv_node_u::int64(v) if raw.format == sys::MPV_FORMAT_INT64 => Node::Int64(v),
            mpv_node_u::double_(v) if raw.format == sys::MPV_FORMAT_DOUBLE => Node::Double(v),
            mpv_node_u::string(p) if raw.format == sys::MPV_FORMAT_STRING => Node::String(
                mem.string_at(p),
            ),
            mpv_node_u::list(p) if raw.format == sys::MPV_FORMAT_NODE_ARRAY => {
                let list = mem.lists[p];
                let mut items: Vec<Node> = Vec::new();
                if let Some(a) = list.values {
                    let ghost expected = mem.read(*raw)->Array_0;
                    let num: usize = entry_count(list.num);
                    let mut i: usize = 0;
                    while i < num
                        invariant
                            mem.wf(),
                            mem.valid(*raw),
                            raw.format == sys::MPV_FORMAT_NODE_ARRAY,
                            raw.u == mpv_node_u::list(p),
                            list == mem.lists()[p as int],
                            list.values == Some(a),
                            expected == mem.read(*raw)->Array_0,
                            num == NodeStorage::entries(list),
                            i <= num,
                            items@.len() == i,
                            forall|j: int| 0 <= j < i ==> (#[trigger] items@[j])@ == expected[j],
                        decreases num - i,
                    {
                        let child = &mem.node_arrays[a][i];
                        assert(mem.node_arrays()[a as int]@[i as int] == *child);
                        items.push(Node::from_raw(mem, child));
                        i += 1;
                    }
                }
                assert(Node::Array(items)@->Array_0 == mem.read(*raw)->Array_0);
                Node::Array(items)
            },
            mpv_node_u::list(p) if raw.format == sys::MPV_FORMAT_NODE_MAP => {
                let list = mem.lists[p];
                let mut entries: Vec<(String, Node)> = Vec::new();
                if let (Some(a), Some(k)) = (list.values, list.keys) {
                    let ghost expected = mem.read(*raw)->NodeMap_0;
                    let num: usize = entry_count(list.num);
                    let mut i: usize = 0;
                    while i < num
                        invariant
                            mem.wf(),
                            mem.valid(*raw),
                            raw.format == sys::MPV_FORMAT_NODE_MAP,
                            raw.u == mpv_node_u::list(p),
                            list == mem.lists()[p as int],
                            list.values == Some(a),
                            list.keys == Some(k),
                            expected == mem.read(*raw)->NodeMap_0,
                            num == NodeStorage::entries(list),
                            i <= num,
                            entries@.len() == i,
                            forall|j: int|
                                0 <= j < i ==> (#[trigger] entries@[j]).0@ == expected[j].0
                                    && entries@[j].1@ == expected[j].1,
                        decreases num - i,
                    {
                        let child = &mem.node_arrays[a][i];
                        assert(mem.node_arrays()[a as int]@[i as int] == *child);
                        let p_key: usize = mem.key_arrays[k][i];
                        assert(mem.key_arrays()[k as int]@[i as int] == p_key);
                        let key = mem.string_at(p_key);
                        entries.push((key, Node::from_raw(mem, child)));
                        i += 1;
                    }
                }
                assert(Node::NodeMap(entries)@->NodeMap_0 == mem.read(*raw)->NodeMap_0);
                Node::NodeMap(entries)
            },
            mpv_node_u::ba(p) if raw.format == sys::MPV_FORMAT_BYTE_ARRAY => {
                let ba = mem.byte_arrays[p];
                match ba.data {
                    Some(d) if ba.size > 0 => Node::ByteArray(
                        slice_to_vec(slice_subrange(mem.bytes[d].as_slice(), 0, ba.size)),
                    ),
                    _ => Node::ByteArray(Vec::new()),
                }
            },
            // No value, and anything unknown.
            _ => Node::Empty,
        }
    }
}

/// How many entries of a list with the count `num` are read.
pub fn entry_count(num: i32) -> (n: usize)
    ensures
        n == (if num > 0 {
            num as int
        } else {
            0
        }),
{
    if num > 0 {
        num as usize
    } else {
        0
    }
}

/// What was written reads back the same: the representation of a value is a
/// valid node, and its deep copy is that value, provided that the length of
/// every array and map can be written in the `int` that counts its entries.
pub proof fn law_node_round_trip(mem: NodeStorage, raw: mpv_node, v: NodeView)
    requires
        mem.wf(),
        mem.encodes(raw, v),
        !v.has_interior_nul(),
        v.counts_fit(),
    ensures
        mem.valid(raw),
        mem.read(raw) == v,
    decreases v,
{
    match v {
        NodeView::String(s) => {
            cstring::law_c_string_round_trip(s);
        },
        NodeView::Array(items) => {
            lemma_truncated_count(items.len() as usize);
            let list = mem.lists()[raw.u->list_0 as int];
            let values = mem.node_arrays()[list.values->0 as int]@;
            assert forall|i: int| 0 <= i < items.len() implies mem.read(#[trigger] values[i])
                == items[i] && mem.rank(values[i]) < mem.rank(raw) by {
                assert(!items[i].has_interior_nul());
                law_node_round_trip(mem, values[i], items[i]);
            }
            assert(mem.read(raw)->Array_0 =~= items);
        },
        NodeView::NodeMap(entries) => {
            lemma_truncated_count(entries.len() as usize);
            let list = mem.lists()[raw.u->list_0 as int];
            let values = mem.node_arrays()[list.values->0 as int]@;
            let keys = mem.key_arrays()[list.keys->0 as int]@;
            assert forall|i: int| 0 <= i < entries.len() implies mem.read(#[trigger] values[i])
                == entries[i].1 && mem.rank(values[i]) < mem.rank(raw) by {
                assert(!cstring::has_nul(entries[i].0) && !entries[i].1.has_interior_nul());
                law_node_round_trip(mem, values[i], entries[i].1);
            }
            assert forall|i: int| 0 <= i < entries.len() implies mem.text(#[trigger] keys[i])
                == entries[i].0 && keys[i] < mem.strings().len() by {
                assert(mem.string_encodes(keys[i], entries[i].0));
                assert(!cstring::has_nul(entries[i].0));
                cstring::law_c_string_round_trip(entries[i].0);
            }
            assert(mem.read(raw)->NodeMap_0 =~= entries);
        },
        NodeView::ByteArray(data) => {
            assert(data.take(data.len() as int) =~= data);
            assert(data.len() == 0 ==> data =~= Seq::<u8>::empty());
        },
        _ => {},
    }
}

/// A node keeps its value while allocations are added to its storage.
pub proof fn law_growth_keeps_values(old: NodeStorage, new: NodeStorage, raw: mpv_node)
    requires
        old.wf(),
        old.valid(raw),
        new.extends(old),
    ensures
        new.valid(raw),
        new.read(raw) == old.read(raw),
    decreases old.rank(raw),
{
    lemma_valid_extends(old, new, raw);
    if raw.format == sys::MPV_FORMAT_NODE_ARRAY {
        let list = old.lists()[raw.u->list_0 as int];
        let values = old.node_arrays()[list.values->0 as int]@;
        assert forall|i: int| 0 <= i < NodeStorage::entries(list) implies new.read(
            #[trigger] values[i],
        ) == old.read(values[i]) && new.rank(values[i]) == old.rank(values[i]) by {
            lemma_valid_extends(old, new, values[i]);
            law_growth_keeps_values(old, new, values[i]);
        }
        assert(new.read(raw)->Array_0 =~= old.read(raw)->Array_0);
    } else if raw.format == sys::MPV_FORMAT_NODE_MAP {
        let list = old.lists()[raw.u->list_0 as int];
        let values = old.node_arrays()[list.values->0 as int]@;
        let keys = old.key_arrays()[list.keys->0 as int]@;
        assert forall|i: int| 0 <= i < NodeStorage::entries(list) implies new.read(
            #[trigger] values[i],
        ) == old.read(values[i]) && new.rank(values[i]) == old.rank(values[i]) by {
            lemma_valid_extends(old, new, values[i]);
            law_growth_keeps_values(old, new, values[i]);
        }
        assert forall|i: int| 0 <= i < NodeStorage::entries(list) implies new.text(
            #[trigger] keys[i],
        ) == old.text(keys[i]) by {}
        assert(new.read(raw)->NodeMap_0 =~= old.read(raw)->NodeMap_0);
    }
}

impl Node {
    /// A copy with the same value.
    fn copied(&self) -> (node: Node)
        ensures
            node@ == self@,
        decreases self,
    {
        match self {
            Node::Empty => Node::Empty,
            Node::Flag(v) => Node::Flag(*v),
            Node::Int64(v) => Node::Int64(*v),
            Node::Double(v) => Node::Double(*v),
            Node::String(s) => Node::String(s.clone()),
            Node::Array(items) => {
                let mut copies: Vec<Node> = Vec::new();
                let mut i: usize = 0;
                while i < items.len()
                    invariant
                        self == Node::Array(*items),
                        i <= items@.len(),
                        copies@.len() == i,
                        forall|j: int| 0 <= j < i ==> (#[trigger] copies@[j])@ == items@[j]@,
                    decreases items@.len() - i,
                {
                    assert(decreases_to!(self => self->Array_0));
                    copies.push(items[i].copied());
                    i += 1;
                }
                assert(Node::Array(copies)@->Array_0 == self@->Array_0);
                Node::Array(copies)
            },
            Node::NodeMap(entries) => {
                let mut copies: Vec<(String, Node)> = Vec::new();
                let mut i: usize = 0;
                while i < entries.len()
                    invariant
                        self == Node::NodeMap(*entries),
                        i <= entries@.len(),
                        copies@.len() == i,
                        forall|j: int|
                            0 <= j < i ==> (#[trigger] copies@[j]).0@ == entries@[j].0@
                                && copies@[j].1@ == entries@[j].1@,
                    decreases entries@.len() - i,
                {
                    let entry = &entries[i];
                    assert(decreases_to!(self => self->NodeMap_0));
                    copies.push((entry.0.clone(), entry.1.copied()));
                    i += 1;
                }
                assert(Node::NodeMap(copies)@->NodeMap_0 == self@->NodeMap_0);
                Node::NodeMap(copies)
            },
            Node::ByteArray(data) => Node::ByteArray(data.clone()),
        }
    }
}

/// Whether two values are equal: of the same shape, with the same strings,
/// bytes, flags and integers, and with doubles that are the same number.
pub open spec fn same_value(a: NodeView, b: NodeView) -> bool
    decreases a,
{
    match (a, b) {
        (NodeView::Empty, NodeView::Empty) => true,
        (NodeView::Flag(x), NodeView::Flag(y)) => x == y,
        (NodeView::Int64(x), NodeView::Int64(y)) => x == y,
        (NodeView::Double(x), NodeView::Double(y)) => x.same_number(y),
        (NodeView::String(x), NodeView::String(y)) => x == y,
        (NodeView::Array(x), NodeView::Array(y)) => x.len() == y.len() && forall|i: int|
            0 <= i < x.len() ==> same_value(#[trigger] x[i], y[i]),
        (NodeView::NodeMap(x), NodeView::NodeMap(y)) => x.len() == y.len() && forall|i: int|
            0 <= i < x.len() ==> (#[trigger] x[i]).0 == y[i].0 && same_value(x[i].1, y[i].1),
        (NodeView::ByteArray(x), NodeView::ByteArray(y)) => x == y,
        _ => false,
    }
}

/// Whether two byte blocks are equal.
fn same_bytes(a: &Vec<u8>, b: &Vec<u8>) -> (same: bool)
    ensures
        same == (a@ == b@),
{
    if a.len() != b.len() {
        return false;
    }
    for i in 0..a.len()
        invariant
            a@.len() == b@.len(),
            forall|j: int| 0 <= j < i ==> a@[j] == b@[j],
    {
        if a[i] != b[i] {
            return false;
        }
    }
    assert(a@ =~= b@);
    true
}

impl Node {
    /// Whether the two have equal values.
    fn same(&self, other: &Node) -> (same: bool)
        ensures
            same == same_value(self@, other@),
        decreases self,
    {
        match (self, other) {
            (Node::Empty, Node::Empty) => true,
            (Node::Flag(x), Node::Flag(y)) => *x == *y,
            (Node::Int64(x), Node::Int64(y)) => *x == *y,
            (Node::Double(x), Node::Double(y)) => *x == *y,
            (Node::String(x), Node::String(y)) => *x == *y,
            (Node::Array(x), Node::Array(y)) => {
                let ghost v = self@->Array_0;
                let ghost w = other@->Array_0;
                if x.len() != y.len() {
                    return false;
                }
                let mut i: usize = 0;
                while i < x.len()
                    invariant
                        self == Node::Array(*x),
                        other == Node::Array(*y),
                        v == self@->Array_0,
                        w == other@->Array_0,
                        x@.len() == y@.len(),
                        i <= x@.len(),
                        forall|j: int| 0 <= j < i ==> same_value(#[trigger] v[j], w[j]),
                    decreases x@.len() - i,
                {
                    assert(decreases_to!(self => self->Array_0));
                    assert(x@[i as int]@ == v[i as int]);
                    assert(y@[i as int]@ == w[i as int]);
                    if !x[i].same(&y[i]) {
                        assert(!same_value(v[i as int], w[i as int]));
                        return false;
                    }
                    i += 1;
                }
                true
            },
            (Node::NodeMap(x), Node::NodeMap(y)) => {
                let ghost v = self@->NodeMap_0;
                let ghost w = other@->NodeMap_0;
                if x.len() != y.len() {
                    return false;
                }
                let mut i: usize = 0;
                while i < x.len()
                    invariant
                        self == Node::NodeMap(*x),
                        other == Node::NodeMap(*y),
                        v == self@->NodeMap_0,
                        w == other@->NodeMap_0,
                        x@.len() == y@.len(),
                        i <= x@.len(),
                        forall|j: int|
                            0 <= j < i ==> (#[trigger] v[j]).0 == w[j].0 && same_value(
                                v[j].1,
                                w[j].1,
                            ),
                    decreases x@.len() - i,
                {
                    assert(decreases_to!(self => self->NodeMap_0));
                    let a = &x[i];
                    let b = &y[i];
                    assert(v[i as int] == (a.0@, a.1@));
                    assert(w[i as int] == (b.0@, b.1@));
                    if a.0 != b.0 || !a.1.same(&b.1) {
                        assert(!(v[i as int].0 == w[i as int].0 && same_value(
                            v[i as int].1,
                            w[i as int].1,
                        )));
                        return false;
                    }
                    i += 1;
                }
                true
            },
            (Node::ByteArray(x), Node::ByteArray(y)) => same_bytes(x, y),
            _ => false,
        }
    }
}

impl PartialEq for Node {
    fn eq(&self, other: &Node) -> (same: bool) {
        self.same(other)
    }
}

impl vstd::std_specs::cmp::PartialEqSpecImpl for Node {
    open spec fn obeys_eq_spec() -> bool {
        true
    }

    open spec fn eq_spec(&self, other: &Node) -> bool {
        same_value(self@, other@)
    }
}

impl Clone for Node {
    fn clone(&self) -> (node: Node)
        ensures
            node@ == self@,
    {
        self.copied()
    }
}

impl Default for Node {
    fn default() -> (node: Node)
        ensures
            node == Node::Empty,
    {
        Node::Empty
    }
}

impl From<bool> for Node {
    fn from(v: bool) -> (node: Node) {
        Node::Flag(v)
    }
}

impl FromSpecImpl<bool> for Node {
    open spec fn obeys_from_spec() -> bool {
        true
    }

    open spec fn from_spec(v: bool) -> Node {
        Node::Flag(v)
    }
}

impl From<i64> for Node {
    fn from(v: i64) -> (node: Node) {
        Node::Int64(v)
    }
}

impl FromSpecImpl<i64> for Node {
    open spec fn obeys_from_spec() -> bool {
        true
    }

    open spec fn from_spec(v: i64) -> Node {
        Node::Int64(v)
    }
}

impl From<Double> for Node {
    fn from(v: Double) -> (node: Node) {
        Node::Double(v)
    }
}

impl FromSpecImpl<Double> for Node {
    open spec fn obeys_from_spec() -> bool {
        true
    }

    open spec fn from_spec(v: Double) -> Node {
        Node::Double(v)
    }
}

impl From<String> for Node {
    fn from(v: String) -> (node: Node) {
        Node::String(v)
    }
}

impl FromSpecImpl<String> for Node {
    open spec fn obeys_from_spec() -> bool {
        true
    }

    open spec fn from_spec(v: String) -> Node {
        Node::String(v)
    }
}

impl From<&str> for Node {
    fn from(v: &str) -> (node: Node)
        ensures
            node@ == NodeView::String(v@),
    {
        Node::String(v.to_owned())
    }
}

/// The owned copy of a text is known by its characters only, which the
/// contract of `from` speaks of.
impl FromSpecImpl<&str> for Node {
    open spec fn obeys_from_spec() -> bool {
        false
    }

    open spec fn from_spec(v: &str) -> Node {
        Node::Empty
    }
}

impl<T: Into<Node>> From<Vec<T>> for Node {
    fn from(v: Vec<T>) -> (node: Node)
        ensures
            node matches Node::Array(items) && items@.len() == v@.len() && forall|i: int|
                0 <= i < v@.len() ==> call_ensures(T::into, (v@[i],), #[trigger] items@[i]),
    {
        let mut items: Vec<Node> = Vec::new();
        for item in iter: v
            invariant
                iter.seq() == v@,
                items@.len() == iter.index(),
                forall|i: int|
                    0 <= i < iter.index() ==> call_ensures(T::into, (v@[i],), #[trigger] items@[i]),
        {
            items.push(item.into());
        }
        Node::Array(items)
    }
}

/// What the items become is known by the contract of their own conversion
/// only, which the contract of `from` speaks of.
impl<T: Into<Node>> FromSpecImpl<Vec<T>> for Node {
    open spec fn obeys_from_spec() -> bool {
        false
    }

    open spec fn from_spec(v: Vec<T>) -> Node {
        Node::Empty
    }
}

/// The value of a node holds what the node holds: a scalar as it is, a string
/// by its characters, and item `i` of an array, entry `i` of a map and byte `i`
/// of a byte array at the place `i`.
pub proof fn law_value_keeps_contents(node: Node)
    ensures
        node is Empty <==> node@ is Empty,
        forall|b: bool| node == Node::Flag(b) <==> node@ == NodeView::Flag(b),
        forall|n: i64| node == Node::Int64(n) <==> node@ == NodeView::Int64(n),
        forall|d: Double| node == Node::Double(d) <==> node@ == NodeView::Double(d),
        node matches Node::String(s) ==> node@ == NodeView::String(s@),
        node matches Node::Array(items) ==> {
            &&& node@ matches NodeView::Array(v)
            &&& v.len() == items@.len()
            &&& forall|i: int| 0 <= i < v.len() ==> #[trigger] v[i] == items@[i]@
        },
        node matches Node::NodeMap(entries) ==> {
            &&& node@ matches NodeView::NodeMap(v)
            &&& v.len() == entries@.len()
            &&& forall|i: int|
                0 <= i < v.len() ==> (#[trigger] v[i]).0 == entries@[i].0@ && v[i].1
                    == entries@[i].1@
        },
        node matches Node::ByteArray(data) ==> node@ == NodeView::ByteArray(data@),
{
}

/// A value that [`NodeStorage::build`] is given fails exactly with
/// [`Error::InteriorNul`], and what it gives for any other value is a valid
/// node that reads back as that value, while every node that was valid before
/// keeps its own.
pub proof fn law_build_then_read()
    ensures
        forall|mem: &mut NodeStorage, node: &Node, e: Error| #[trigger]
            call_ensures(NodeStorage::build, (mem, node), Err::<mpv_node, Error>(e)) ==> e
                == Error::InteriorNul && node@.has_interior_nul(),
        forall|mem: &mut NodeStorage, node: &Node, raw: mpv_node| #[trigger]
            call_ensures(NodeStorage::build, (mem, node), Ok::<mpv_node, Error>(raw)) ==> {
                &&& !node@.has_interior_nul()
                &&& final(mem).wf()
                &&& final(mem).valid(raw)
                &&& final(mem).encodes(raw, node@)
                &&& node@.counts_fit() ==> final(mem).read(raw) == node@
            },
        forall|mem: &mut NodeStorage, node: &Node, r: Result<mpv_node>, other: mpv_node|
            #![trigger call_ensures(NodeStorage::build, (mem, node), r), mem.valid(other)]
            call_ensures(NodeStorage::build, (mem, node), r) && mem.wf() && mem.valid(other) ==> {
                &&& final(mem).valid(other)
                &&& final(mem).read(other) == mem.read(other)
            },
{
    assert forall|mem: &mut NodeStorage, node: &Node, raw: mpv_node| #[trigger]
        call_ensures(NodeStorage::build, (mem, node), Ok::<mpv_node, Error>(raw)) && node@
            .counts_fit() implies final(mem).read(raw) == node@ by {
        law_node_round_trip(*final(mem), raw, node@);
    }
    assert forall|mem: &mut NodeStorage, node: &Node, r: Result<mpv_node>, other: mpv_node|
        #![trigger call_ensures(NodeStorage::build, (mem, node), r), mem.valid(other)]
        call_ensures(NodeStorage::build, (mem, node), r) && mem.wf() && mem.valid(other) implies {
        &&& final(mem).valid(other)
        &&& final(mem).read(other) == mem.read(other)
    } by {
        law_growth_keeps_values(*mem, *final(mem), other);
    }
}

/// What [`NodeStorage::build`] leaves in memory for an array, or a map, is a
/// list in which the node at `values[i]` reads back as item `i`, or as the value
/// of entry `i`, and the string at `keys[i]` as its key.
pub proof fn law_build_keeps_the_order(i: int)
    ensures
        forall|mem: &mut NodeStorage, node: &Node, raw: mpv_node| #[trigger]
            call_ensures(NodeStorage::build, (mem, node), Ok::<mpv_node, Error>(raw))
                && node@.counts_fit() ==> match *node {
                Node::Array(items) => 0 <= i < items@.len() ==> {
                    let list = final(mem).lists()[raw.u->list_0 as int];
                    let values = final(mem).node_arrays()[list.values->0 as int]@;
                    list.num == items@.len() && final(mem).read(values[i]) == items@[i]@
                },
                Node::NodeMap(entries) => 0 <= i < entries@.len() ==> {
                    let list = final(mem).lists()[raw.u->list_0 as int];
                    let values = final(mem).node_arrays()[list.values->0 as int]@;
                    let keys = final(mem).key_arrays()[list.keys->0 as int]@;
                    list.num == entries@.len() && final(mem).read(values[i]) == entries@[i].1@
                        && final(mem).strings()[keys[i] as int]@ == encode_utf8(entries@[i].0@)
                },
                _ => true,
            },
{
    assert forall|mem: &mut NodeStorage, node: &Node, raw: mpv_node| #[trigger]
        call_ensures(NodeStorage::build, (mem, node), Ok::<mpv_node, Error>(raw))
            && node@.counts_fit() implies match *node {
        Node::Array(items) => 0 <= i < items@.len() ==> {
            let list = final(mem).lists()[raw.u->list_0 as int];
            let values = final(mem).node_arrays()[list.values->0 as int]@;
            list.num == items@.len() && final(mem).read(values[i]) == items@[i]@
        },
        Node::NodeMap(entries) => 0 <= i < entries@.len() ==> {
            let list = final(mem).lists()[raw.u->list_0 as int];
            let values = final(mem).node_arrays()[list.values->0 as int]@;
            let keys = final(mem).key_arrays()[list.keys->0 as int]@;
            list.num == entries@.len() && final(mem).read(values[i]) == entries@[i].1@
                && final(mem).strings()[keys[i] as int]@ == encode_utf8(entries@[i].0@)
        },
        _ => true,
    } by {
        if let NodeView::Array(items) = node@ {
            if 0 <= i < items.len() {
                law_array_is_written_in_order(*final(mem), raw, items, i);
                assert(!items[i].has_interior_nul() && items[i].counts_fit());
            }
        } else if let NodeView::NodeMap(entries) = node@ {
            if 0 <= i < entries.len() {
                law_map_is_written_in_order(*final(mem), raw, entries, i);
                assert(!entries[i].1.has_interior_nul() && entries[i].1.counts_fit());
            }
        }
    }
}

/// What is deep-copied from a valid node is the value that the node reads as.
pub proof fn law_deep_copy(mem: &NodeStorage, raw: &mpv_node, node: Node)
    ensures
        mem.wf() && mem.valid(*raw) ==> call_requires(Node::from_raw, (mem, raw)),
        call_ensures(Node::from_raw, (mem, raw), node) ==> node@ == mem.read(*raw),
{
}

/// A scalar is written into the union member of its own format, unchanged: an
/// integer as itself for every integer, a double with its bits, and a flag as
/// `1` or `0`.
pub proof fn law_scalars_are_written_as_they_are(mem: NodeStorage, raw: mpv_node)
    ensures
        mem.encodes(raw, NodeView::Empty) ==> raw.format == sys::MPV_FORMAT_NONE,
        mem.encodes(raw, NodeView::Flag(true)) ==> raw == (mpv_node {
            u: mpv_node_u::flag(1),
            format: sys::MPV_FORMAT_FLAG,
        }),
        mem.encodes(raw, NodeView::Flag(false)) ==> raw == (mpv_node {
            u: mpv_node_u::flag(0),
            format: sys::MPV_FORMAT_FLAG,
        }),
        forall|n: i64|
            mem.encodes(raw, NodeView::Int64(n)) ==> raw == (mpv_node {
                u: mpv_node_u::int64(n),
                format: sys::MPV_FORMAT_INT64,
            }),
        forall|d: Double|
            mem.encodes(raw, NodeView::Double(d)) ==> raw == (mpv_node {
                u: mpv_node_u::double_(d),
                format: sys::MPV_FORMAT_DOUBLE,
            }),
{
}

/// A scalar node is valid with the union member of its format, and reads as
/// what that member holds: every integer as itself, a double with its bits, and
/// a flag as whether it is not `0`.
pub proof fn law_scalars_are_read_as_they_are(mem: NodeStorage, raw: mpv_node)
    ensures
        forall|n: i32|
            raw.u == mpv_node_u::flag(n) && raw.format == sys::MPV_FORMAT_FLAG ==> mem.valid(raw)
                && #[trigger] mem.read(raw) == NodeView::Flag(n != 0),
        forall|n: i64|
            raw.u == mpv_node_u::int64(n) && raw.format == sys::MPV_FORMAT_INT64 ==> mem.valid(raw)
                && mem.read(raw) == NodeView::Int64(n),
        forall|d: Double|
            raw.u == mpv_node_u::double_(d) && raw.format == sys::MPV_FORMAT_DOUBLE ==> mem.valid(
                raw,
            ) && mem.read(raw) == NodeView::Double(d),
{
}

/// A node is valid and reads as no value at all in every format but those of
/// flags, integers, doubles, strings, arrays, maps and byte arrays, whatever
/// its union holds.
pub proof fn law_other_formats_read_as_empty(mem: NodeStorage, raw: mpv_node)
    requires
        raw.format != 1,
        !(3 <= raw.format <= 5),
        !(7 <= raw.format <= 9),
    ensures
        mem.valid(raw),
        mem.read(raw) == NodeView::Empty,
{
}

/// The string of a written node holds the bytes of the text and no NUL among
/// them.
pub proof fn law_text_is_written_as_its_bytes(mem: NodeStorage, raw: mpv_node, s: Seq<char>)
    requires
        mem.encodes(raw, NodeView::String(s)),
        forall|i: int| 0 <= i < s.len() ==> s[i] != '\0',
    ensures
        raw.format == sys::MPV_FORMAT_STRING,
        raw.u matches mpv_node_u::string(p) && p < mem.strings().len() && {
            let bytes = mem.strings()[p as int]@;
            bytes == encode_utf8(s) && !bytes.contains(0u8)
        },
{
    cstring::law_c_string_round_trip(s);
}

/// A string node is valid wherever its string is in memory, and reads as exactly
/// the text whose bytes that string holds, or for other bytes as what the lossy
/// conversion gives.
pub proof fn law_text_is_read_from_its_bytes(
    mem: NodeStorage,
    raw: mpv_node,
    p: usize,
    s: Seq<char>,
)
    requires
        raw.format == sys::MPV_FORMAT_STRING,
        raw.u == mpv_node_u::string(p),
        p < mem.strings().len(),
    ensures
        mem.valid(raw),
        mem.strings()[p as int]@ == encode_utf8(s) && !s.contains('\0') ==> mem.read(raw)
            == NodeView::String(s),
        !valid_utf8(mem.strings()[p as int]@) ==> mem.read(raw) == NodeView::String(
            cstring::utf8_lossy(mem.strings()[p as int]@),
        ),
{
    if !s.contains('\0') {
        cstring::law_c_string_round_trip(s);
    }
}

/// In memory an array is a list without keys whose value `i` is the
/// representation of item `i`: there are as many values as items, and the node
/// at `values[i]` reads back as `items[i]`.
pub proof fn law_array_is_written_in_order(
    mem: NodeStorage,
    raw: mpv_node,
    items: Seq<NodeView>,
    i: int,
)
    requires
        mem.wf(),
        mem.encodes(raw, NodeView::Array(items)),
        0 <= i < items.len(),
    ensures
        raw.format == sys::MPV_FORMAT_NODE_ARRAY,
        raw.u matches mpv_node_u::list(p) && p < mem.lists().len() && {
            let list = mem.lists()[p as int];
            &&& items.len() <= i32::MAX ==> list.num == items.len()
            &&& list.keys is None
            &&& list.values matches Some(a)
            &&& a < mem.node_arrays().len()
            &&& mem.node_arrays()[a as int]@.len() == items.len()
            &&& mem.encodes(mem.node_arrays()[a as int]@[i], items[i])
            &&& !items[i].has_interior_nul() && items[i].counts_fit() ==> {
                &&& mem.valid(mem.node_arrays()[a as int]@[i])
                &&& mem.read(mem.node_arrays()[a as int]@[i]) == items[i]
            }
        },
{
    lemma_truncated_count(items.len() as usize);
    let list = mem.lists()[raw.u->list_0 as int];
    let values = mem.node_arrays()[list.values->0 as int]@;
    assert(mem.encodes(values[i], items[i]));
    if !items[i].has_interior_nul() && items[i].counts_fit() {
        law_node_round_trip(mem, values[i], items[i]);
    }
}

/// An array node is valid with as many values in memory as its count says, and
/// item `i` of what it reads as is what the node at `values[i]` reads as.
pub proof fn law_array_is_read_in_order(mem: NodeStorage, raw: mpv_node, p: usize, a: usize)
    requires
        mem.wf(),
        raw.format == sys::MPV_FORMAT_NODE_ARRAY,
        raw.u == mpv_node_u::list(p),
        p < mem.lists().len(),
        mem.lists()[p as int].values == Some(a),
        a < mem.node_arrays().len(),
        mem.lists()[p as int].num <= mem.node_arrays()[a as int]@.len(),
    ensures
        mem.valid(raw),
        mem.read(raw) matches NodeView::Array(items) && {
            let num = mem.lists()[p as int].num;
            &&& items.len() == if num < 0 { 0 } else { num as int }
            &&& forall|i: int|
                0 <= i < num ==> #[trigger] items[i] == mem.read(
                    mem.node_arrays()[a as int]@[i],
                )
        },
{
    let num = mem.lists()[p as int].num;
    assert forall|i: int| 0 <= i < num implies #[trigger] (mem.read(raw)->Array_0)[i] == mem.read(
        mem.node_arrays()[a as int]@[i],
    ) by {
        assert(mem.rank(mem.node_arrays()[a as int]@[i]) <= a);
    }
}

/// In memory a map is a list whose key `i` holds the bytes of the key of entry
/// `i` and whose value `i` is the representation of its value: there are as
/// many of each as entries, the string at `keys[i]` reads as the key of entry
/// `i`, and the node at `values[i]` reads back as its value.
pub proof fn law_map_is_written_in_order(
    mem: NodeStorage,
    raw: mpv_node,
    entries: Seq<(Seq<char>, NodeView)>,
    i: int,
)
    requires
        mem.wf(),
        mem.encodes(raw, NodeView::NodeMap(entries)),
        0 <= i < entries.len(),
    ensures
        raw.format == sys::MPV_FORMAT_NODE_MAP,
        raw.u matches mpv_node_u::list(p) && p < mem.lists().len() && {
            let list = mem.lists()[p as int];
            &&& entries.len() <= i32::MAX ==> list.num == entries.len()
            &&& list.keys matches Some(k)
            &&& k < mem.key_arrays().len()
            &&& mem.key_arrays()[k as int]@.len() == entries.len()
            &&& mem.key_arrays()[k as int]@[i] < mem.strings().len()
            &&& mem.strings()[mem.key_arrays()[k as int]@[i] as int]@ == encode_utf8(entries[i].0)
            &&& list.values matches Some(a)
            &&& a < mem.node_arrays().len()
            &&& mem.node_arrays()[a as int]@.len() == entries.len()
            &&& mem.encodes(mem.node_arrays()[a as int]@[i], entries[i].1)
            &&& !entries[i].1.has_interior_nul() && entries[i].1.counts_fit() ==> {
                &&& mem.valid(mem.node_arrays()[a as int]@[i])
                &&& mem.read(mem.node_arrays()[a as int]@[i]) == entries[i].1
            }
        },
{
    lemma_truncated_count(entries.len() as usize);
    let list = mem.lists()[raw.u->list_0 as int];
    let values = mem.node_arrays()[list.values->0 as int]@;
    let keys = mem.key_arrays()[list.keys->0 as int]@;
    assert(mem.encodes(values[i], entries[i].1));
    assert(mem.string_encodes(keys[i], entries[i].0));
    if !entries[i].1.has_interior_nul() && entries[i].1.counts_fit() {
        law_node_round_trip(mem, values[i], entries[i].1);
    }
}

/// A map node is valid with as many keys and values in memory as its count
/// says, and entry `i` of what it reads as is the text of the string at
/// `keys[i]` with what the node at `values[i]` reads as: the text whose bytes
/// the string holds, or for other bytes what the lossy conversion gives.
pub proof fn law_map_is_read_in_order(
    mem: NodeStorage,
    raw: mpv_node,
    p: usize,
    k: usize,
    a: usize,
    i: int,
    text: Seq<char>,
)
    requires
        mem.wf(),
        raw.format == sys::MPV_FORMAT_NODE_MAP,
        raw.u == mpv_node_u::list(p),
        p < mem.lists().len(),
        mem.lists()[p as int].keys == Some(k),
        k < mem.key_arrays().len(),
        mem.lists()[p as int].values == Some(a),
        a < mem.node_arrays().len(),
        mem.lists()[p as int].num <= mem.node_arrays()[a as int]@.len(),
        mem.lists()[p as int].num <= mem.key_arrays()[k as int]@.len(),
        forall|j: int|
            0 <= j < mem.lists()[p as int].num ==> (#[trigger] mem.key_arrays()[k as int]@[j])
                < mem.strings().len(),
        0 <= i < mem.lists()[p as int].num,
    ensures
        mem.valid(raw),
        mem.read(raw) matches NodeView::NodeMap(entries) && {
            let key = mem.strings()[mem.key_arrays()[k as int]@[i] as int]@;
            &&& entries.len() == mem.lists()[p as int].num
            &&& entries[i].1 == mem.read(mem.node_arrays()[a as int]@[i])
            &&& key == encode_utf8(text) && !text.contains('\0') ==> entries[i].0 == text
            &&& !valid_utf8(key) ==> entries[i].0 == cstring::utf8_lossy(key)
        },
{
    assert(mem.rank(mem.node_arrays()[a as int]@[i]) <= a);
    assert(mem.key_arrays()[k as int]@[i] < mem.strings().len());
    if !text.contains('\0') {
        cstring::law_c_string_round_trip(text);
    }
}

/// A list whose count is `0` or negative reads as no entries, null pointers
/// and all.
pub proof fn law_lists_without_a_count_are_empty(mem: NodeStorage, raw: mpv_node, p: usize)
    requires
        raw.u == mpv_node_u::list(p),
        p < mem.lists().len(),
        mem.lists()[p as int].num <= 0,
    ensures
        raw.format == sys::MPV_FORMAT_NODE_ARRAY ==> mem.valid(raw) && (mem.read(
            raw,
        ) matches NodeView::Array(items) && items.len() == 0),
        raw.format == sys::MPV_FORMAT_NODE_MAP ==> mem.valid(raw) && (mem.read(
            raw,
        ) matches NodeView::NodeMap(entries) && entries.len() == 0),
{
}

/// In memory a byte array is a header with the number of bytes, and byte `i`
/// of the block it refers to is byte `i` of the data.
pub proof fn law_bytes_are_written_in_order(mem: NodeStorage, raw: mpv_node, data: Seq<u8>)
    requires
        mem.encodes(raw, NodeView::ByteArray(data)),
    ensures
        raw.format == sys::MPV_FORMAT_BYTE_ARRAY,
        raw.u matches mpv_node_u::ba(p) && p < mem.byte_arrays().len() && {
            let ba = mem.byte_arrays()[p as int];
            &&& ba.size == data.len()
            &&& ba.data matches Some(d)
            &&& d < mem.bytes().len()
            &&& mem.bytes()[d as int]@.len() == data.len()
            &&& forall|i: int|
                0 <= i < data.len() ==> #[trigger] mem.bytes()[d as int]@[i] == data[i]
        },
{
}

/// A byte array node is valid with as many bytes in memory as its header says,
/// and reads as that many bytes: byte `i` of the block at the place `i`.
pub proof fn law_bytes_are_read_in_order(mem: NodeStorage, raw: mpv_node, p: usize, d: usize)
    requires
        raw.format == sys::MPV_FORMAT_BYTE_ARRAY,
        raw.u == mpv_node_u::ba(p),
        p < mem.byte_arrays().len(),
        mem.byte_arrays()[p as int].data == Some(d) && d < mem.bytes().len()
            && mem.byte_arrays()[p as int].size <= mem.bytes()[d as int]@.len()
            || mem.byte_arrays()[p as int].size == 0,
    ensures
        mem.valid(raw),
        mem.read(raw) matches NodeView::ByteArray(data) && {
            &&& data.len() == mem.byte_arrays()[p as int].size
            &&& forall|i: int|
                0 <= i < data.len() ==> #[trigger] data[i] == mem.bytes()[d as int]@[i]
        },
{
}

/// A text can be passed if none of its characters is NUL; an array if each of
/// its items can; a map if the key and the value of each entry can; and every
/// other value can.
pub proof fn law_what_can_be_passed(v: NodeView)
    ensures
        v matches NodeView::String(s) ==> (v.has_interior_nul() <==> exists|i: int|
            0 <= i < s.len() && s[i] == '\0'),
        v matches NodeView::Array(items) ==> (!v.has_interior_nul() <==> forall|i: int|
            0 <= i < items.len() ==> !(#[trigger] items[i]).has_interior_nul()),
        v matches NodeView::NodeMap(entries) ==> (!v.has_interior_nul() <==> forall|i: int|
            0 <= i < entries.len() ==> !(#[trigger] entries[i]).1.has_interior_nul()
                && !NodeView::String(entries[i].0).has_interior_nul()),
        v is Empty || v is Flag || v is Int64 || v is Double || v is ByteArray
            ==> !v.has_interior_nul(),
{
    reveal_with_fuel(NodeView::has_interior_nul, 2);
}

/// The counts of an array or a map fit if its own length is below `2^31` and
/// the counts in each of its items fit; nothing else has a count.
pub proof fn law_what_can_be_counted(v: NodeView)
    ensures
        v matches NodeView::Array(items) ==> (v.counts_fit() <==> items.len() < 0x8000_0000
            && forall|i: int| 0 <= i < items.len() ==> (#[trigger] items[i]).counts_fit()),
        v matches NodeView::NodeMap(entries) ==> (v.counts_fit() <==> entries.len() < 0x8000_0000
            && forall|i: int| 0 <= i < entries.len() ==> (#[trigger] entries[i]).1.counts_fit()),
        !(v is Array) && !(v is NodeMap) ==> v.counts_fit(),
{
}

/// A storage that grew holds at every old index what it held there.
pub proof fn law_growth_keeps_allocations(old: NodeStorage, new: NodeStorage)
    requires
        new.extends(old),
    ensures
        old.strings() == new.strings().take(old.strings().len() as int),
        old.lists() == new.lists().take(old.lists().len() as int),
        old.node_arrays() == new.node_arrays().take(old.node_arrays().len() as int),
        old.key_arrays() == new.key_arrays().take(old.key_arrays().len() as int),
        old.byte_arrays() == new.byte_arrays().take(old.byte_arrays().len() as int),
        old.bytes() == new.bytes().take(old.bytes().len() as int),
{
}

/// Equality goes both ways.
pub proof fn law_equality_is_symmetric(a: NodeView, b: NodeView)
    ensures
        same_value(a, b) <==> same_value(b, a),
    decreases a,
{
    match (a, b) {
        (NodeView::Array(x), NodeView::Array(y)) => {
            if x.len() == y.len() {
                assert forall|i: int| 0 <= i < x.len() implies (same_value(#[trigger] x[i], y[i])
                    <==> same_value(y[i], x[i])) by {
                    law_equality_is_symmetric(x[i], y[i]);
                }
                if same_value(b, a) {
                    assert forall|i: int| 0 <= i < x.len() implies same_value(
                        #[trigger] x[i],
                        y[i],
                    ) by {
                        assert(same_value(y[i], x[i]));
                    }
                }
            }
        },
        (NodeView::NodeMap(x), NodeView::NodeMap(y)) => {
            if x.len() == y.len() {
                assert forall|i: int| 0 <= i < x.len() implies (same_value(
                    (#[trigger] x[i]).1,
                    y[i].1,
                ) <==> same_value(y[i].1, x[i].1)) by {
                    law_equality_is_symmetric(x[i].1, y[i].1);
                }
                if same_value(b, a) {
                    assert forall|i: int| 0 <= i < x.len() implies (#[trigger] x[i]).0 == y[i].0
                        && same_value(x[i].1, y[i].1) by {
                        assert(y[i].0 == x[i].0 && same_value(y[i].1, x[i].1));
                    }
                }
            }
        },
        _ => {},
    }
}

/// Whether no double of the value is a NaN.
pub open spec fn nan_free(v: NodeView) -> bool
    decreases v,
{
    match v {
        NodeView::Double(d) => !d.is_nan(),
        NodeView::Array(items) => forall|i: int|
            0 <= i < items.len() ==> nan_free(#[trigger] items[i]),
        NodeView::NodeMap(entries) => forall|i: int|
            0 <= i < entries.len() ==> nan_free((#[trigger] entries[i]).1),
        _ => true,
    }
}

/// A value without a NaN equals itself, and one that holds a NaN anywhere
/// equals nothing.
pub proof fn law_values_equal_themselves_without_nan(v: NodeView, other: NodeView)
    ensures
        nan_free(v) <==> same_value(v, v),
        !nan_free(v) ==> !same_value(v, other),
    decreases v,
{
    match v {
        NodeView::Array(items) => {
            if nan_free(v) {
                assert forall|i: int| 0 <= i < items.len() implies same_value(
                    #[trigger] items[i],
                    items[i],
                ) by {
                    law_values_equal_themselves_without_nan(items[i], items[i]);
                }
            } else {
                let i = choose|i: int| 0 <= i < items.len() && !nan_free(#[trigger] items[i]);
                law_values_equal_themselves_without_nan(items[i], items[i]);
                if let NodeView::Array(others) = other {
                    if others.len() == items.len() {
                        law_values_equal_themselves_without_nan(items[i], others[i]);
                    }
                }
            }
        },
        NodeView::NodeMap(entries) => {
            if nan_free(v) {
                assert forall|i: int| 0 <= i < entries.len() implies same_value(
                    (#[trigger] entries[i]).1,
                    entries[i].1,
                ) by {
                    law_values_equal_themselves_without_nan(entries[i].1, entries[i].1);
                }
            } else {
                let i = choose|i: int|
                    0 <= i < entries.len() && !nan_free((#[trigger] entries[i]).1);
                law_values_equal_themselves_without_nan(entries[i].1, entries[i].1);
                if let NodeView::NodeMap(others) = other {
                    if others.len() == entries.len() {
                        law_values_equal_themselves_without_nan(entries[i].1, others[i].1);
                    }
                }
            }
        },
        _ => {},
    }
}

/// Whether the value holds no double at all.
pub open spec fn double_free(v: NodeView) -> bool
    decreases v,
{
    match v {
        NodeView::Double(_) => false,
        NodeView::Array(items) => forall|i: int|
            0 <= i < items.len() ==> double_free(#[trigger] items[i]),
        NodeView::NodeMap(entries) => forall|i: int|
            0 <= i < entries.len() ==> double_free((#[trigger] entries[i]).1),
        _ => true,
    }
}

/// Without doubles, equal values are the same value: the same kind, the same
/// strings, bytes and numbers, the same items in the same order.
pub proof fn law_equal_values_are_identical_without_doubles(a: NodeView, b: NodeView)
    requires
        double_free(a),
    ensures
        same_value(a, b) <==> a == b,
    decreases a,
{
    match (a, b) {
        (NodeView::Array(x), NodeView::Array(y)) => {
            if x.len() == y.len() {
                assert forall|i: int| 0 <= i < x.len() implies (same_value(#[trigger] x[i], y[i])
                    <==> x[i] == y[i]) by {
                    law_equal_values_are_identical_without_doubles(x[i], y[i]);
                }
            }
            if same_value(a, b) {
                assert(x =~= y);
            }
        },
        (NodeView::NodeMap(x), NodeView::NodeMap(y)) => {
            if x.len() == y.len() {
                assert forall|i: int| 0 <= i < x.len() implies (same_value(
                    (#[trigger] x[i]).1,
                    y[i].1,
                ) <==> x[i].1 == y[i].1) by {
                    law_equal_values_are_identical_without_doubles(x[i].1, y[i].1);
                }
            }
            if same_value(a, b) {
                assert(x =~= y);
            }
        },
        _ => {},
    }
}

/// Doubles in a value are compared as numbers, in arrays and maps as on their
/// own: two values are equal if and only if their items are, pair by pair.
pub proof fn law_equality_goes_item_by_item(a: NodeView, b: NodeView)
    ensures
        forall|x: Double, y: Double|
            a == NodeView::Double(x) && b == NodeView::Double(y) ==> (#[trigger] same_value(a, b)
                <==> #[trigger] x.same_number(y)),
        a matches NodeView::Array(x) ==> (b matches NodeView::Array(y) ==> (same_value(a, b)
            <==> x.len() == y.len() && forall|i: int|
            0 <= i < x.len() ==> same_value(#[trigger] x[i], y[i]))),
        a matches NodeView::NodeMap(x) ==> (b matches NodeView::NodeMap(y) ==> (same_value(a, b)
            <==> x.len() == y.len() && forall|i: int|
            0 <= i < x.len() ==> (#[trigger] x[i]).0 == y[i].0 && same_value(x[i].1, y[i].1))),
        same_value(a, b) ==> (a is Array <==> b is Array) && (a is NodeMap <==> b is NodeMap) && (
        a is Double <==> b is Double),
{
}

/// `==` on nodes, their copies and their conversions go by their values: `==`
/// says whether the values are equal, a copy has the value of the original, and
/// a converted scalar or text is the node that holds it.
pub proof fn law_conversions_keep_the_value(a: &Node, b: &Node, node: Node, same: bool)
    ensures
        call_ensures(<Node as PartialEq>::eq, (a, b), same) ==> same == same_value(a@, b@),
        call_ensures(<Node as Clone>::clone, (a,), node) ==> node@ == a@,
        call_ensures(<Node as Default>::default, (), node) ==> node@ is Empty,
        forall|v: bool| #[trigger]
            call_ensures(<Node as From<bool>>::from, (v,), node) ==> node@ == NodeView::Flag(v),
        forall|v: i64| #[trigger]
            call_ensures(<Node as From<i64>>::from, (v,), node) ==> node@ == NodeView::Int64(v),
        forall|v: Double| #[trigger]
            call_ensures(<Node as From<Double>>::from, (v,), node) ==> node@ == NodeView::Double(v),
        forall|v: String| #[trigger]
            call_ensures(<Node as From<String>>::from, (v,), node) ==> node@ == NodeView::String(
                v@,
            ),
        forall|v: &str| #[trigger]
            call_ensures(<Node as From<&str>>::from, (v,), node) ==> node@ == NodeView::String(v@),
{
}

/// The conversion of a vector is the array of the conversions of its items, in
/// their order.
pub proof fn law_vector_becomes_an_array<T: Into<Node>>(v: Vec<T>, node: Node)
    requires
        call_ensures(<Node as From<Vec<T>>>::from, (v,), node),
    ensures
        node matches Node::Array(items) && items@.len() == v@.len() && forall|i: int|
            0 <= i < v@.len() ==> call_ensures(T::into, (v@[i],), #[trigger] items@[i]),
{
}

/// Whatever is valid can be put into a storage, which stays one of trees, and
/// everything in a storage can be taken out of it.
pub proof fn law_storage_accepts_what_is_valid()
    ensures
        forall|mem: NodeStorage| #[trigger]
            call_ensures(NodeStorage::new, (), mem) ==> mem.wf() && mem.strings().len() == 0
                && mem.lists().len() == 0 && mem.node_arrays().len() == 0
                && mem.key_arrays().len() == 0 && mem.byte_arrays().len() == 0
                && mem.bytes().len() == 0,
        forall|mem: &mut NodeStorage, node: &Node|
            mem.wf() ==> #[trigger] call_requires(NodeStorage::build, (mem, node)),
        forall|mem: &mut NodeStorage, c: CString|
            mem.wf() ==> #[trigger] call_requires(NodeStorage::push_string, (mem, c)),
        forall|mem: &mut NodeStorage, data: Vec<u8>|
            mem.wf() ==> #[trigger] call_requires(NodeStorage::push_byte_array, (mem, data)),
        forall|mem: &mut NodeStorage, num: i32, values: Vec<mpv_node>, keys: Option<Vec<usize>>|
            mem.wf() && (forall|i: int|
                0 <= i < values@.len() ==> mem.valid(#[trigger] values@[i])) ==> #[trigger]
                call_requires(NodeStorage::push_list, (mem, num, values, keys)),
        forall|mem: &mut NodeStorage, c: CString, p: usize| #[trigger]
            call_ensures(NodeStorage::push_string, (mem, c), p) ==> final(mem).wf()
                && final(mem).extends(*mem),
        forall|mem: &mut NodeStorage, data: Vec<u8>, p: usize| #[trigger]
            call_ensures(NodeStorage::push_byte_array, (mem, data), p) ==> final(mem).wf()
                && final(mem).extends(*mem),
        forall|
            mem: &mut NodeStorage,
            num: i32,
            values: Vec<mpv_node>,
            keys: Option<Vec<usize>>,
            p: usize,
        | #[trigger]
            call_ensures(NodeStorage::push_list, (mem, num, values, keys), p) ==> final(mem).wf()
                && final(mem).extends(*mem),
        forall|mem: &NodeStorage, p: usize|
            p < mem.strings().len() ==> #[trigger] call_requires(NodeStorage::string_at, (mem, p)),
        forall|mem: &NodeStorage, p: usize|
            p < mem.strings().len() ==> #[trigger] call_requires(
                NodeStorage::c_string_at,
                (mem, p),
            ),
        forall|mem: &NodeStorage, p: usize|
            p < mem.lists().len() ==> #[trigger] call_requires(NodeStorage::list_at, (mem, p)),
        forall|mem: &NodeStorage, a: usize|
            a < mem.node_arrays().len() ==> #[trigger] call_requires(
                NodeStorage::nodes_at,
                (mem, a),
            ),
        forall|mem: &NodeStorage, k: usize|
            k < mem.key_arrays().len() ==> #[trigger] call_requires(
                NodeStorage::keys_at,
                (mem, k),
            ),
        forall|mem: &NodeStorage, p: usize|
            p < mem.byte_arrays().len() ==> #[trigger] call_requires(
                NodeStorage::byte_array_at,
                (mem, p),
            ),
        forall|mem: &NodeStorage, d: usize|
            d < mem.bytes().len() ==> #[trigger] call_requires(NodeStorage::bytes_at, (mem, d)),
{
}

/// What was put into a storage is found under the index that was returned for
/// it, and a storage hands out what it holds at an index.
pub proof fn law_storage_gives_back_what_it_was_given()
    ensures
        forall|mem: &mut NodeStorage, c: CString, p: usize| #[trigger]
            call_ensures(NodeStorage::push_string, (mem, c), p) ==> p < final(mem).strings().len()
                && final(mem).strings()[p as int] == c && p == mem.strings().len(),
        forall|mem: &mut NodeStorage, data: Vec<u8>, p: usize| #[trigger]
            call_ensures(NodeStorage::push_byte_array, (mem, data), p) ==> p
                < final(mem).byte_arrays().len() && final(mem).byte_arrays()[p as int].size
                == data@.len() && (final(mem).byte_arrays()[p as int].data matches Some(d) && d < final(mem).bytes().len()
                && final(mem).bytes()[d as int]@ == data@),
        forall|
            mem: &mut NodeStorage,
            num: i32,
            values: Vec<mpv_node>,
            keys: Option<Vec<usize>>,
            p: usize,
        | #[trigger]
            call_ensures(NodeStorage::push_list, (mem, num, values, keys), p) ==> p
                < final(mem).lists().len() && {
                let list = final(mem).lists()[p as int];
                &&& list.num == num
                &&& list.values matches Some(a)
                &&& a < final(mem).node_arrays().len()
                &&& final(mem).node_arrays()[a as int]@ == values@
                &&& list.keys is Some <==> keys is Some
                &&& keys matches Some(keys) ==> list.keys->0 < final(mem).key_arrays().len()
                    && final(mem).key_arrays()[list.keys->0 as int]@ == keys@
            },
        forall|mem: &NodeStorage, p: usize, c: &CString| #[trigger]
            call_ensures(NodeStorage::c_string_at, (mem, p), c) ==> *c == mem.strings()[p as int],
        forall|mem: &NodeStorage, p: usize, s: String| #[trigger]
            call_ensures(NodeStorage::string_at, (mem, p), s) ==> s@ == cstring::lossy_text(
                mem.strings()[p as int]@,
            ),
        forall|mem: &NodeStorage, p: usize, list: mpv_node_list| #[trigger]
            call_ensures(NodeStorage::list_at, (mem, p), list) ==> list == mem.lists()[p as int],
        forall|mem: &NodeStorage, a: usize, nodes: &[mpv_node]| #[trigger]
            call_ensures(NodeStorage::nodes_at, (mem, a), nodes) ==> nodes@
                == mem.node_arrays()[a as int]@,
        forall|mem: &NodeStorage, k: usize, keys: &[usize]| #[trigger]
            call_ensures(NodeStorage::keys_at, (mem, k), keys) ==> keys@
                == mem.key_arrays()[k as int]@,
        forall|mem: &NodeStorage, p: usize, ba: mpv_byte_array| #[trigger]
            call_ensures(NodeStorage::byte_array_at, (mem, p), ba) ==> ba
                == mem.byte_arrays()[p as int],
        forall|mem: &NodeStorage, d: usize, bytes: &[u8]| #[trigger]
            call_ensures(NodeStorage::bytes_at, (mem, d), bytes) ==> bytes@
                == mem.bytes()[d as int]@,
        forall|num: i32, n: usize| #[trigger]
            call_ensures(entry_count, (num,), n) ==> (num >= 0 ==> n == num) && (num <= 0 ==> n
                == 0),
{
}

} // verus!
