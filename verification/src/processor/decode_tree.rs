//! A decoding tree: decoders filed by the bits of their `code`, bit 0 at
//! the root and bit 31 at the leaves, searched with the bits of the word
//! first and the other branch after.
use vstd::prelude::*;
use crate::global::InsnT;
use crate::processor::decode::{decoders, lemma_table_codes_distinct, lemma_table_unambiguous, spec_decode, spec_decoders, Decoder, InsnKind};
use crate::processor::trap::Exception;

verus! {

/// The number of levels of the tree: one per bit of a word.
pub open spec fn insn_bits() -> nat {
    32
}

/// Bit `level` of `x`.
pub open spec fn bit_of(x: InsnT, level: InsnT) -> bool {
    (x >> level) & 1 == 1
}

/// Whether `x` and `y` agree on their bits below `level`.
pub open spec fn agree_below(x: InsnT, y: InsnT, level: InsnT) -> bool {
    forall|i: InsnT| i < level ==> #[trigger] bit_of(x, i) == bit_of(y, i)
}

/// A node of the tree at depth `level`: a leaf (at depth 32) holds a
/// decoder, an inner node the subtrees of the codes whose bit `level` is
/// clear (`left`) or set (`right`).
pub struct TreeNode {
    pub left: Option<Box<TreeNode>>,
    pub right: Option<Box<TreeNode>>,
    pub level: usize,
    pub value: Option<Decoder>,
}

impl TreeNode {
    /// The decoders held below this node, by code.
    pub open spec fn view(self) -> Map<InsnT, Decoder>
        decreases self,
    {
        let l = match self.left {
            Some(n) => n.view(),
            None => Map::empty(),
        };
        let r = match self.right {
            Some(n) => n.view(),
            None => Map::empty(),
        };
        let v = match self.value {
            Some(d) => Map::empty().insert(d.code, d),
            None => Map::empty(),
        };
        l.union_prefer_right(r).union_prefer_right(v)
    }

    /// The shape every node keeps: leaves at depth 32 hold a decoder and
    /// nothing else; an inner node holds none; children are deeper, and
    /// file the codes by bit `level` of this node.
    pub open spec fn inv(self) -> bool
        decreases self,
    {
        &&& self.level <= insn_bits()
        &&& self.level == insn_bits() ==> self.left is None && self.right is None && self.value is Some
        &&& self.level < insn_bits() ==> self.value is None
        &&& match self.left {
            Some(n) => n.level > self.level && n.inv()
                && forall|c: InsnT| #[trigger] n.view().dom().contains(c) ==> !bit_of(c, self.level as InsnT),
            None => true,
        }
        &&& match self.right {
            Some(n) => n.level > self.level && n.inv()
                && forall|c: InsnT| #[trigger] n.view().dom().contains(c) ==> bit_of(c, self.level as InsnT),
            None => true,
        }
    }

    /// The shape while decoders are being added: every child is exactly
    /// one level deeper.
    pub open spec fn dense(self) -> bool
        decreases self,
    {
        &&& self.inv()
        &&& match self.left {
            Some(n) => n.level == self.level + 1 && n.dense(),
            None => true,
        }
        &&& match self.right {
            Some(n) => n.level == self.level + 1 && n.dense(),
            None => true,
        }
    }

    /// What a search for `key` finds below this node: at a leaf, its
    /// decoder when `key` matches it; at an inner node, what the branch of
    /// `key`'s bit `level` finds, else what the other branch finds.
    pub open spec fn spec_get(self, key: InsnT) -> Option<Decoder>
        decreases self,
    {
        if self.level >= insn_bits() {
            match self.value {
                Some(d) => if d.spec_matched(key) { Some(d) } else { None },
                None => None,
            }
        } else {
            let l = child_get(self.left, key);
            let r = child_get(self.right, key);
            if !bit_of(key, self.level as InsnT) {
                if l is Some { l } else { r }
            } else {
                if r is Some { r } else { l }
            }
        }
    }

    /// An empty node at depth `level`.
    pub fn new(level: usize) -> (r: TreeNode)
        requires
            level < 32,
        ensures
            r.level == level,
            r.dense(),
            r.view() == Map::<InsnT, Decoder>::empty(),
    {
        let r = TreeNode { left: None, right: None, level, value: None };
        assert(r.view() =~= Map::<InsnT, Decoder>::empty());
        r
    }
}

impl TreeNode {
    /// Files `value` under its code. When a decoder with that code is held
    /// already it is returned and nothing changes. The codes held must
    /// agree with `value`'s on the bits above this node.
    pub fn insert(&mut self, value: Decoder) -> (r: Option<Decoder>)
        requires
            old(self).dense(),
            forall|c: InsnT| #[trigger] old(self).view().dom().contains(c)
                ==> agree_below(c, value.code, old(self).level as InsnT),
        ensures
            final(self).dense(),
            final(self).level == old(self).level,
            match r {
                Some(d) => old(self).view().dom().contains(value.code) && d == old(self).view()[value.code]
                    && *final(self) == *old(self),
                None => !old(self).view().dom().contains(value.code)
                    && final(self).view() == old(self).view().insert(value.code, value),
            },
        decreases 32 - old(self).level,
    {
        proof {
            lemma_view_keys(*old(self));
        }
        if self.level == 32 {
            let v = self.value.unwrap();
            proof {
                assert(old(self).view() =~= Map::empty().insert(v.code, v));
                assert(old(self).view().dom().contains(v.code));
                lemma_agree_all(v.code, value.code);
            }
            return Some(v);
        }
        let b = bit_at(value.code, self.level);
        let level = self.level;
        let ghost l0 = match old(self).left { Some(n) => n.view(), None => Map::<InsnT, Decoder>::empty() };
        let ghost r0 = match old(self).right { Some(n) => n.view(), None => Map::<InsnT, Decoder>::empty() };
        proof {
            assert(old(self).view() =~= l0.union_prefer_right(r0));
        }
        if !b {
            if level + 1 == 32 && self.left.is_none() {
                let leaf = TreeNode { left: None, right: None, level: 32, value: Some(value) };
                proof {
                    assert(leaf.view() =~= Map::empty().insert(value.code, value));
                    assert(!r0.dom().contains(value.code));
                    assert(leaf.inv());
                    assert(leaf.dense());
                    assert(forall|c: InsnT| #[trigger] leaf.view().dom().contains(c) ==> !bit_of(c, level as InsnT));
                }
                self.left = Some(Box::new(leaf));
                proof {
                    assert(self.view() =~= old(self).view().insert(value.code, value));
                }
                return None;
            }
            let had = self.left.is_some();
            let mut node = match self.left.take() {
                Some(n) => n,
                None => Box::new(TreeNode::new(level + 1)),
            };
            proof {
                assert forall|c: InsnT| #[trigger] node.view().dom().contains(c)
                    implies agree_below(c, value.code, (level + 1) as InsnT) by {
                    assert(old(self).view().dom().contains(c));
                    lemma_agree_step(c, value.code, level as InsnT);
                }
            }
            let r = node.insert(value);
            proof {
                assert(!r0.dom().contains(value.code));
            }
            self.left = Some(node);
            proof {
                if r is None {
                    assert(self.view() =~= old(self).view().insert(value.code, value));
                } else {
                    assert(had);
                }
            }
            r
        } else {
            if level + 1 == 32 && self.right.is_none() {
                let leaf = TreeNode { left: None, right: None, level: 32, value: Some(value) };
                proof {
                    assert(leaf.view() =~= Map::empty().insert(value.code, value));
                    assert(!l0.dom().contains(value.code));
                    assert(leaf.inv());
                    assert(leaf.dense());
                    assert(forall|c: InsnT| #[trigger] leaf.view().dom().contains(c) ==> bit_of(c, level as InsnT));
                }
                self.right = Some(Box::new(leaf));
                proof {
                    assert(self.view() =~= old(self).view().insert(value.code, value));
                }
                return None;
            }
            let had = self.right.is_some();
            let mut node = match self.right.take() {
                Some(n) => n,
                None => Box::new(TreeNode::new(level + 1)),
            };
            proof {
                assert forall|c: InsnT| #[trigger] node.view().dom().contains(c)
                    implies agree_below(c, value.code, (level + 1) as InsnT) by {
                    assert(old(self).view().dom().contains(c));
                    lemma_agree_step(c, value.code, level as InsnT);
                }
            }
            let r = node.insert(value);
            proof {
                assert(!l0.dom().contains(value.code));
            }
            self.right = Some(node);
            proof {
                if r is None {
                    assert(self.view() =~= old(self).view().insert(value.code, value));
                } else {
                    assert(had);
                }
            }
            r
        }
    }
}

/// What a search for `key` finds below an optional child.
pub open spec fn child_get(c: Option<Box<TreeNode>>, key: InsnT) -> Option<Decoder>
    decreases c,
{
    match c {
        Some(n) => n.spec_get(key),
        None => None,
    }
}

/// The decoders held below an optional child.
pub open spec fn child_view(c: Option<Box<TreeNode>>) -> Map<InsnT, Decoder> {
    match c {
        Some(n) => n.view(),
        None => Map::empty(),
    }
}

/// Whether `r` is what decoding `ir` with the decoders `v` may give: the
/// instruction of a decoder that matches `ir`, or an illegal-instruction
/// exception when none does.
pub open spec fn tree_decoded(v: Map<InsnT, Decoder>, ir: InsnT, r: Result<InsnKind, Exception>) -> bool {
    match r {
        Ok(k) => exists|c: InsnT| #[trigger] v.dom().contains(c) && v[c].spec_matched(ir) && v[c].kind == k,
        Err(e) => e == Exception::IllegalInsn(ir) && forall|c: InsnT| #[trigger] v.dom().contains(c) ==> !v[c].spec_matched(ir),
    }
}

impl TreeNode {
    /// A decoder held below this node that matches `key`, searching the
    /// branch of `key`'s bit first; `None` when none matches.
    pub fn get(&self, key: InsnT) -> (r: Option<Decoder>)
        requires
            self.inv(),
        ensures
            r == self.spec_get(key),
            r matches Some(d) ==> self.view().dom().contains(d.code) && self.view()[d.code] == d && d.spec_matched(key),
            r is None ==> forall|c: InsnT| #[trigger] self.view().dom().contains(c) ==> !self.view()[c].spec_matched(key),
        decreases self,
    {
        proof {
            lemma_view_keys(*self);
        }
        if self.level == 32 {
            let v = self.value.unwrap();
            proof {
                assert(self.view() =~= Map::empty().insert(v.code, v));
            }
            if key & v.mask == v.code {
                return Some(v);
            }
            return None;
        }
        let ghost lv = child_view(self.left);
        let ghost rv = child_view(self.right);
        proof {
            assert(self.view() =~= lv.union_prefer_right(rv));
            assert forall|c: InsnT| lv.dom().contains(c) implies !rv.dom().contains(c) by {
                if let Some(n) = self.left {
                    assert(n.view().dom().contains(c));
                }
                if let Some(n) = self.right {
                    if rv.dom().contains(c) {
                        assert(n.view().dom().contains(c));
                    }
                }
            }
        }
        let left_first = !bit_at(key, self.level);
        let mut found: Option<Decoder> = None;
        if left_first {
            if let Some(n) = &self.left {
                found = n.get(key);
            }
            if found.is_none() {
                if let Some(n) = &self.right {
                    found = n.get(key);
                }
            }
        } else {
            if let Some(n) = &self.right {
                found = n.get(key);
            }
            if found.is_none() {
                if let Some(n) = &self.left {
                    found = n.get(key);
                }
            }
        }
        found
    }

    /// Whether the node has exactly one child.
    pub open spec fn single_child(self) -> bool {
        self.left is Some != self.right is Some
    }

    /// Whether no node below this one has exactly one child.
    pub open spec fn compressed(self) -> bool
        decreases self,
    {
        &&& match self.left {
            Some(n) => !n.single_child() && n.compressed(),
            None => true,
        }
        &&& match self.right {
            Some(n) => !n.single_child() && n.compressed(),
            None => true,
        }
    }

    /// The first node from `n` down that does not have exactly one child.
    fn get_node(n: Box<TreeNode>) -> (r: Box<TreeNode>)
        requires
            n.inv(),
        ensures
            r.inv(),
            r.view() == n.view(),
            r.level >= n.level,
            !r.single_child(),
            !n.single_child() ==> *r == *n,
            forall|k: InsnT| #[trigger] r.spec_get(k) == n.spec_get(k),
        decreases n,
    {
        let node = *n;
        if node.left.is_some() && node.right.is_none() {
            let ghost l = node.left->0;
            proof {
                assert(node.view() =~= l.view());
            }
            Self::get_node(node.left.unwrap())
        } else if node.right.is_some() && node.left.is_none() {
            let ghost rr = node.right->0;
            proof {
                assert(node.view() =~= rr.view());
            }
            Self::get_node(node.right.unwrap())
        } else {
            Box::new(node)
        }
    }

    /// Skips the chains of single-child nodes; the decoders held and what
    /// a search finds stay the same.
    pub fn compress(&mut self)
        requires
            old(self).inv(),
        ensures
            final(self).inv(),
            final(self).view() == old(self).view(),
            final(self).level == old(self).level,
            final(self).left is Some == old(self).left is Some,
            final(self).right is Some == old(self).right is Some,
            final(self).compressed(),
            forall|k: InsnT| #[trigger] final(self).spec_get(k) == old(self).spec_get(k),
        decreases 32 - old(self).level,
    {
        if self.level == 32 {
            return;
        }
        let ghost l0 = self.left;
        let ghost r0 = self.right;
        if let Some(n) = self.left.take() {
            let mut m = Self::get_node(n);
            m.compress();
            self.left = Some(m);
        }
        assert forall|k: InsnT| #[trigger] child_get(self.left, k) == child_get(l0, k) by {
            if let Some(m) = self.left {
                assert(m.spec_get(k) == l0->0.spec_get(k));
            }
        }
        if let Some(n) = self.right.take() {
            let mut m = Self::get_node(n);
            m.compress();
            self.right = Some(m);
        }
        assert forall|k: InsnT| #[trigger] child_get(self.right, k) == child_get(r0, k) by {
            if let Some(m) = self.right {
                assert(m.spec_get(k) == r0->0.spec_get(k));
            }
        }
        proof {
            assert(self.view() =~= old(self).view());
            assert forall|k: InsnT| #[trigger] self.spec_get(k) == old(self).spec_get(k) by {
                assert(child_get(self.left, k) == child_get(l0, k));
                assert(child_get(self.right, k) == child_get(r0, k));
            }
        }
    }
}

/// A decoding tree over the instructions registered in it.
pub struct TreeInsnMap {
    root: TreeNode,
    locked: bool,
}

impl TreeInsnMap {
    /// The decoders registered, by code.
    pub closed spec fn view(self) -> Map<InsnT, Decoder> {
        self.root.view()
    }

    /// What a search of the tree for `key` finds (see `TreeNode::spec_get`).
    pub closed spec fn spec_get(self, key: InsnT) -> Option<Decoder> {
        self.root.spec_get(key)
    }

    /// Whether the tree has been compressed for searching only.
    pub closed spec fn is_locked(self) -> bool {
        self.locked
    }

    /// Well-formedness of the tree.
    pub closed spec fn wf(self) -> bool {
        &&& self.root.level == 0
        &&& self.root.inv()
        &&& !self.locked ==> self.root.dense()
    }

    /// An empty map, open for registration.
    pub fn new() -> (r: TreeInsnMap)
        ensures
            r.wf(),
            !r.is_locked(),
            r.view() == Map::<InsnT, Decoder>::empty(),
    {
        TreeInsnMap { root: TreeNode::new(0), locked: false }
    }

    /// Registers `decoder`; no decoder with the same code may be
    /// registered already.
    pub fn registery(&mut self, decoder: Decoder)
        requires
            old(self).wf(),
            !old(self).is_locked(),
            !old(self).view().dom().contains(decoder.code),
        ensures
            final(self).wf(),
            !final(self).is_locked(),
            final(self).view() == old(self).view().insert(decoder.code, decoder),
    {
        proof {
            assert forall|c: InsnT| #[trigger] self.root.view().dom().contains(c)
                implies agree_below(c, decoder.code, 0) by {
            }
        }
        let _ = self.root.insert(decoder);
    }

    /// The tree of every instruction of the table, locked for searching.
    pub fn global() -> (r: TreeInsnMap)
        ensures
            r.wf(),
            r.is_locked(),
            holds_table(r.view(), spec_decoders()),
    {
        let table = decoders();
        let mut map = TreeInsnMap::new();
        let mut i: usize = 0;
        proof {
            lemma_table_codes_distinct();
        }
        while i < table.len()
            invariant
                table@ == spec_decoders(),
                i <= table@.len(),
                map.wf(),
                !map.is_locked(),
                forall|a: int, b: int| 0 <= a < table@.len() && 0 <= b < table@.len() && a != b
                    ==> #[trigger] table@[a].code != #[trigger] table@[b].code,
                forall|k: int| 0 <= k < i ==> map.view().dom().contains(#[trigger] table@[k].code)
                    && map.view()[table@[k].code] == table@[k],
                forall|c: InsnT| #[trigger] map.view().dom().contains(c) ==> exists|k: int| 0 <= k < i && table@[k].code == c,
            decreases table@.len() - i,
        {
            let d = table[i];
            proof {
                if map.view().dom().contains(d.code) {
                    let k = choose|k: int| 0 <= k < i && table@[k].code == d.code;
                    assert(table@[k].code != table@[i as int].code);
                }
            }
            map.registery(d);
            proof {
                assert forall|c: InsnT| #[trigger] map.view().dom().contains(c)
                    implies exists|k: int| 0 <= k < i + 1 && table@[k].code == c by {
                    if c == d.code {
                        assert(table@[i as int].code == c);
                    } else {
                        let k = choose|k: int| 0 <= k < i && table@[k].code == c;
                        assert(table@[k].code == c);
                    }
                }
            }
            i = i + 1;
        }
        map.lock();
        map
    }

    /// The instruction of `ir` (see `tree_decoded`).
    pub fn decode(&self, ir: &InsnT) -> (r: Result<InsnKind, Exception>)
        requires
            self.wf(),
        ensures
            tree_decoded(self.view(), *ir, r),
            r == match self.spec_get(*ir) {
                Some(d) => Ok::<InsnKind, Exception>(d.kind),
                None => Err(Exception::IllegalInsn(*ir)),
            },
    {
        match self.root.get(*ir) {
            Some(d) => Ok(d.kind),
            None => Err(Exception::IllegalInsn(*ir)),
        }
    }

    /// Compresses the tree for searching; no decoder is registered after.
    pub fn lock(&mut self)
        requires
            old(self).wf(),
        ensures
            final(self).wf(),
            final(self).is_locked(),
            final(self).view() == old(self).view(),
            forall|k: InsnT| #[trigger] final(self).spec_get(k) == old(self).spec_get(k),
    {
        self.root.compress();
        self.locked = true;
    }
}

/// When exactly one registered decoder matches a word, decoding the word
/// gives that decoder's instruction.
pub proof fn lemma_tree_decode_unique(v: Map<InsnT, Decoder>, ir: InsnT, r: Result<InsnKind, Exception>, d: Decoder)
    requires
        tree_decoded(v, ir, r),
        v.dom().contains(d.code),
        v[d.code] == d,
        d.spec_matched(ir),
        forall|c: InsnT| #[trigger] v.dom().contains(c) && v[c].spec_matched(ir) ==> c == d.code,
    ensures
        r == Ok::<InsnKind, Exception>(d.kind),
{
    if let Ok(k) = r {
        let c = choose|c: InsnT| #[trigger] v.dom().contains(c) && v[c].spec_matched(ir) && v[c].kind == k;
        assert(c == d.code);
    } else {
        assert(v.dom().contains(d.code) ==> !v[d.code].spec_matched(ir));
    }
}

/// The first-match scan of a table finds a matching entry when there is
/// one, and fails when there is none.
proof fn lemma_spec_decode_cases(table: Seq<Decoder>, ir: InsnT)
    ensures
        (exists|i: int| 0 <= i < table.len() && #[trigger] table[i].spec_matched(ir)
            && spec_decode(table, ir) == Ok::<InsnKind, Exception>(table[i].kind))
        || (spec_decode(table, ir) == Err::<InsnKind, Exception>(Exception::IllegalInsn(ir))
            && forall|i: int| 0 <= i < table.len() ==> !(#[trigger] table[i].spec_matched(ir))),
    decreases table.len(),
{
    if table.len() > 0 && !table[0].spec_matched(ir) {
        let rest = table.drop_first();
        lemma_spec_decode_cases(rest, ir);
        if exists|i: int| 0 <= i < rest.len() && #[trigger] rest[i].spec_matched(ir)
            && spec_decode(rest, ir) == Ok::<InsnKind, Exception>(rest[i].kind) {
            let i = choose|i: int| 0 <= i < rest.len() && #[trigger] rest[i].spec_matched(ir)
                && spec_decode(rest, ir) == Ok::<InsnKind, Exception>(rest[i].kind);
            assert(table[i + 1] == rest[i]);
        } else {
            assert forall|i: int| 0 <= i < table.len() implies !(#[trigger] table[i].spec_matched(ir)) by {
                if i > 0 {
                    assert(table[i] == rest[i - 1]);
                }
            }
        }
    } else if table.len() > 0 {
        assert(table[0].spec_matched(ir));
    }
}

/// `v` files each entry of `table` under its code, and holds nothing else.
pub open spec fn holds_table(v: Map<InsnT, Decoder>, table: Seq<Decoder>) -> bool {
    &&& forall|i: int| 0 <= i < table.len() ==> v.dom().contains(#[trigger] table[i].code) && v[table[i].code] == table[i]
    &&& forall|c: InsnT| #[trigger] v.dom().contains(c) ==> exists|i: int| 0 <= i < table.len() && table[i].code == c
}

/// The tree and the table scan agree: where no two entries of `table`
/// match `ir`, a tree holding exactly the entries of `table` decodes `ir`
/// to what the first-match scan of `table` gives.
pub proof fn lemma_tree_agrees_with_table(table: Seq<Decoder>, v: Map<InsnT, Decoder>, ir: InsnT, r: Result<InsnKind, Exception>)
    requires
        holds_table(v, table),
        forall|i: int, j: int| 0 <= i < table.len() && 0 <= j < table.len() && #[trigger] table[i].spec_matched(ir)
            && #[trigger] table[j].spec_matched(ir) ==> i == j,
        tree_decoded(v, ir, r),
    ensures
        r == spec_decode(table, ir),
{
    lemma_spec_decode_cases(table, ir);
    match r {
        Ok(k) => {
            let c = choose|c: InsnT| #[trigger] v.dom().contains(c) && v[c].spec_matched(ir) && v[c].kind == k;
            let j = choose|j: int| 0 <= j < table.len() && table[j].code == c;
            assert(v[table[j].code] == table[j]);
            assert(table[j].spec_matched(ir));
        },
        Err(_) => {
            assert forall|i: int| 0 <= i < table.len() implies !(#[trigger] table[i].spec_matched(ir)) by {
                assert(v.dom().contains(table[i].code));
            }
        },
    }
}

/// A tree that holds the whole instruction table decodes every word as the
/// first-match scan of the table does.
pub proof fn lemma_tree_decodes_as_table(v: Map<InsnT, Decoder>, ir: InsnT, r: Result<InsnKind, Exception>)
    requires
        holds_table(v, spec_decoders()),
        tree_decoded(v, ir, r),
    ensures
        r == spec_decode(spec_decoders(), ir),
{
    lemma_table_unambiguous(ir);
    lemma_tree_agrees_with_table(spec_decoders(), v, ir, r);
}

/// The decoders of a node are filed under their own codes.
pub proof fn lemma_view_keys(n: TreeNode)
    requires
        n.inv(),
    ensures
        forall|c: InsnT| #[trigger] n.view().dom().contains(c) ==> n.view()[c].code == c,
    decreases n,
{
    if let Some(l) = n.left {
        lemma_view_keys(*l);
    }
    if let Some(r) = n.right {
        lemma_view_keys(*r);
    }
}

/// Bit `level` of a word, as the tree reads it.
fn bit_at(x: InsnT, level: usize) -> (r: bool)
    requires
        level < 32,
    ensures
        r == bit_of(x, level as InsnT),
{
    (x >> (level as InsnT)) & 1 == 1
}

/// Agreement on one more bit.
proof fn lemma_agree_step(x: InsnT, y: InsnT, level: InsnT)
    requires
        level < 32,
        agree_below(x, y, level),
        bit_of(x, level) == bit_of(y, level),
    ensures
        agree_below(x, y, (level + 1) as InsnT),
{
    assert forall|i: InsnT| i < level + 1 implies #[trigger] bit_of(x, i) == bit_of(y, i) by {
        if i < level {
            assert(bit_of(x, i) == bit_of(y, i));
        }
    }
}

/// Words that agree on all 32 bits are equal.
proof fn lemma_agree_all(x: InsnT, y: InsnT)
    requires
        agree_below(x, y, 32),
    ensures
        x == y,
{
    assert(bit_of(x, 0u32) == bit_of(y, 0u32));
    assert(bit_of(x, 1u32) == bit_of(y, 1u32));
    assert(bit_of(x, 2u32) == bit_of(y, 2u32));
    assert(bit_of(x, 3u32) == bit_of(y, 3u32));
    assert(bit_of(x, 4u32) == bit_of(y, 4u32));
    assert(bit_of(x, 5u32) == bit_of(y, 5u32));
    assert(bit_of(x, 6u32) == bit_of(y, 6u32));
    assert(bit_of(x, 7u32) == bit_of(y, 7u32));
    assert(bit_of(x, 8u32) == bit_of(y, 8u32));
    assert(bit_of(x, 9u32) == bit_of(y, 9u32));
    assert(bit_of(x, 10u32) == bit_of(y, 10u32));
    assert(bit_of(x, 11u32) == bit_of(y, 11u32));
    assert(bit_of(x, 12u32) == bit_of(y, 12u32));
    assert(bit_of(x, 13u32) == bit_of(y, 13u32));
    assert(bit_of(x, 14u32) == bit_of(y, 14u32));
    assert(bit_of(x, 15u32) == bit_of(y, 15u32));
    assert(bit_of(x, 16u32) == bit_of(y, 16u32));
    assert(bit_of(x, 17u32) == bit_of(y, 17u32));
    assert(bit_of(x, 18u32) == bit_of(y, 18u32));
    assert(bit_of(x, 19u32) == bit_of(y, 19u32));
    assert(bit_of(x, 20u32) == bit_of(y, 20u32));
    assert(bit_of(x, 21u32) == bit_of(y, 21u32));
    assert(bit_of(x, 22u32) == bit_of(y, 22u32));
    assert(bit_of(x, 23u32) == bit_of(y, 23u32));
    assert(bit_of(x, 24u32) == bit_of(y, 24u32));
    assert(bit_of(x, 25u32) == bit_of(y, 25u32));
    assert(bit_of(x, 26u32) == bit_of(y, 26u32));
    assert(bit_of(x, 27u32) == bit_of(y, 27u32));
    assert(bit_of(x, 28u32) == bit_of(y, 28u32));
    assert(bit_of(x, 29u32) == bit_of(y, 29u32));
    assert(bit_of(x, 30u32) == bit_of(y, 30u32));
    assert(bit_of(x, 31u32) == bit_of(y, 31u32));
    lemma_bits_determine(x, y);
}

/// A 32-bit word is determined by its bits.
proof fn lemma_bits_determine(x: InsnT, y: InsnT)
    by (bit_vector)
    requires
        ((x >> 0u32) & 1 == 1) == ((y >> 0u32) & 1 == 1),
        ((x >> 1u32) & 1 == 1) == ((y >> 1u32) & 1 == 1),
        ((x >> 2u32) & 1 == 1) == ((y >> 2u32) & 1 == 1),
        ((x >> 3u32) & 1 == 1) == ((y >> 3u32) & 1 == 1),
        ((x >> 4u32) & 1 == 1) == ((y >> 4u32) & 1 == 1),
        ((x >> 5u32) & 1 == 1) == ((y >> 5u32) & 1 == 1),
        ((x >> 6u32) & 1 == 1) == ((y >> 6u32) & 1 == 1),
        ((x >> 7u32) & 1 == 1) == ((y >> 7u32) & 1 == 1),
        ((x >> 8u32) & 1 == 1) == ((y >> 8u32) & 1 == 1),
        ((x >> 9u32) & 1 == 1) == ((y >> 9u32) & 1 == 1),
        ((x >> 10u32) & 1 == 1) == ((y >> 10u32) & 1 == 1),
        ((x >> 11u32) & 1 == 1) == ((y >> 11u32) & 1 == 1),
        ((x >> 12u32) & 1 == 1) == ((y >> 12u32) & 1 == 1),
        ((x >> 13u32) & 1 == 1) == ((y >> 13u32) & 1 == 1),
        ((x >> 14u32) & 1 == 1) == ((y >> 14u32) & 1 == 1),
        ((x >> 15u32) & 1 == 1) == ((y >> 15u32) & 1 == 1),
        ((x >> 16u32) & 1 == 1) == ((y >> 16u32) & 1 == 1),
        ((x >> 17u32) & 1 == 1) == ((y >> 17u32) & 1 == 1),
        ((x >> 18u32) & 1 == 1) == ((y >> 18u32) & 1 == 1),
        ((x >> 19u32) & 1 == 1) == ((y >> 19u32) & 1 == 1),
        ((x >> 20u32) & 1 == 1) == ((y >> 20u32) & 1 == 1),
        ((x >> 21u32) & 1 == 1) == ((y >> 21u32) & 1 == 1),
        ((x >> 22u32) & 1 == 1) == ((y >> 22u32) & 1 == 1),
        ((x >> 23u32) & 1 == 1) == ((y >> 23u32) & 1 == 1),
        ((x >> 24u32) & 1 == 1) == ((y >> 24u32) & 1 == 1),
        ((x >> 25u32) & 1 == 1) == ((y >> 25u32) & 1 == 1),
        ((x >> 26u32) & 1 == 1) == ((y >> 26u32) & 1 == 1),
        ((x >> 27u32) & 1 == 1) == ((y >> 27u32) & 1 == 1),
        ((x >> 28u32) & 1 == 1) == ((y >> 28u32) & 1 == 1),
        ((x >> 29u32) & 1 == 1) == ((y >> 29u32) & 1 == 1),
        ((x >> 30u32) & 1 == 1) == ((y >> 30u32) & 1 == 1),
        ((x >> 31u32) & 1 == 1) == ((y >> 31u32) & 1 == 1),
    ensures
        x == y,
{
}

} // verus!
