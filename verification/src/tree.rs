//! The library's own model of a parsed syntax tree.
//!
//! A tree is stored as an arena of nodes in pre-order (document order): the
//! nodes of a subtree occupy one contiguous index range, a node's descendants
//! follow it directly, and iterating the arena by index visits every node
//! exactly once in document order. Traversal therefore needs no recursion and
//! no work stack, and its depth is independent of the tree's shape.
use vstd::prelude::*;

verus! {

/// The closed set of node kinds this analysis understands. Every kind outside
/// it is carried as `Other` and is inert: visited, never classified.
#[derive(Clone, Copy, Debug, PartialEq, Eq, Structural)]
pub enum NodeKind {
    FunctionDeclaration,
    MethodDefinition,
    ArrowFunction,
    FunctionExpression,
    IfStatement,
    ForStatement,
    WhileStatement,
    DoStatement,
    SwitchStatement,
    SwitchCase,
    ConditionalExpression,
    BinaryExpression,
    VariableDeclarator,
    Pair,
    Identifier,
    StatementBlock,
    Other,
}

/// The named relation that links a node to its parent, where the grammar
/// labels it; `Unlabeled` for ordinary children and for labels this analysis
/// never reads.
#[derive(Clone, Copy, Debug, PartialEq, Eq, Structural)]
pub enum FieldLabel {
    NameField,
    BodyField,
    KeyField,
    OperatorField,
    Unlabeled,
}

/// One node of the arena.
///
/// `text` is the source text at the node's span, or `None` where that span is
/// not readable as text; `start_row` and `end_row` are zero-based line
/// numbers; `parent` is the index of the parent node (a root is its own
/// parent); `subtree_end` is the exclusive end of the contiguous index range
/// `[i, subtree_end)` holding the node and all its descendants.
#[derive(Clone, Debug)]
pub struct SyntaxNode {
    pub kind: NodeKind,
    pub field: FieldLabel,
    pub text: Option<String>,
    pub start_row: usize,
    pub end_row: usize,
    pub parent: usize,
    pub subtree_end: usize,
}

/// A syntax tree in pre-order arena form. Index 0, when present, is the root.
#[derive(Clone, Debug)]
pub struct SyntaxTree {
    pub nodes: Vec<SyntaxNode>,
}

impl SyntaxTree {
    /// Well-formedness of one arena entry: its subtree range is non-empty and
    /// in bounds, its span rows are ordered, and its parent precedes it.
    pub open spec fn wf_at(self, i: int) -> bool {
        &&& i < self.nodes@[i].subtree_end <= self.nodes@.len()
        &&& self.nodes@[i].start_row <= self.nodes@[i].end_row
        &&& (i == 0 ==> self.nodes@[i].parent == 0)
        &&& (i > 0 ==> self.nodes@[i].parent < i)
    }

    /// A well-formed arena: every entry is well-formed, and the node count
    /// leaves room for derived counts (a complexity score is one more than a
    /// contribution count) to fit the machine word.
    pub open spec fn wf(self) -> bool {
        &&& self.nodes@.len() < usize::MAX
        &&& forall|i: int| 0 <= i < self.nodes@.len() ==> #[trigger] self.wf_at(i)
    }

    /// Checks well-formedness of the arena, exactly.
    pub fn wf_check(&self) -> (b: bool)
        ensures
            b == self.wf(),
    {
        if self.nodes.len() >= usize::MAX {
            return false;
        }
        let n = self.nodes.len();
        let mut i: usize = 0;
        while i < n
            invariant
                i <= n,
                forall|j: int| 0 <= j < i ==> #[trigger] self.wf_at(j),
            decreases n - i,
        {
            let node = &self.nodes[i];
            if !(node.subtree_end > i && node.subtree_end <= n && node.start_row <= node.end_row
                && (i != 0 || node.parent == 0) && (i == 0 || node.parent < i)) {
                assert(!self.wf_at(i as int));
                return false;
            }
            assert(self.wf_at(i as int));
            i = i + 1;
        }
        true
    }

    /// First child of `p` (in document order) linked by field `f`, searching
    /// from index `j` upward. Children of `p` all lie after `p`, so the scan
    /// starting at `p + 1` finds exactly the first such child.
    pub open spec fn first_child_with_field_from(self, p: int, f: FieldLabel, j: int) -> Option<
        int,
    >
        decreases self.nodes@.len() - j,
    {
        if j < 0 || j >= self.nodes@.len() {
            None
        } else if self.nodes@[j].parent == p && self.nodes@[j].field == f {
            Some(j)
        } else {
            self.first_child_with_field_from(p, f, j + 1)
        }
    }

    /// First child of `p` (in document order) of kind `k`, searching from
    /// index `j` upward.
    pub open spec fn first_child_with_kind_from(self, p: int, k: NodeKind, j: int) -> Option<int>
        decreases self.nodes@.len() - j,
    {
        if j < 0 || j >= self.nodes@.len() {
            None
        } else if self.nodes@[j].parent == p && self.nodes@[j].kind == k {
            Some(j)
        } else {
            self.first_child_with_kind_from(p, k, j + 1)
        }
    }

    /// A found child by field lies in bounds, after the start of the search,
    /// and carries the field and parent searched for.
    pub proof fn lemma_first_child_with_field_bounds(self, p: int, f: FieldLabel, j: int)
        ensures
            match self.first_child_with_field_from(p, f, j) {
                Some(c) => {
                    &&& j <= c < self.nodes@.len()
                    &&& self.nodes@[c].parent == p
                    &&& self.nodes@[c].field == f
                },
                None => true,
            },
        decreases self.nodes@.len() - j,
    {
        if 0 <= j < self.nodes@.len() && !(self.nodes@[j].parent == p && self.nodes@[j].field
            == f) {
            self.lemma_first_child_with_field_bounds(p, f, j + 1);
        }
    }

    /// A found child by kind lies in bounds, after the start of the search,
    /// and carries the kind and parent searched for.
    pub proof fn lemma_first_child_with_kind_bounds(self, p: int, k: NodeKind, j: int)
        ensures
            match self.first_child_with_kind_from(p, k, j) {
                Some(c) => {
                    &&& j <= c < self.nodes@.len()
                    &&& self.nodes@[c].parent == p
                    &&& self.nodes@[c].kind == k
                },
                None => true,
            },
        decreases self.nodes@.len() - j,
    {
        if 0 <= j < self.nodes@.len() && !(self.nodes@[j].parent == p && self.nodes@[j].kind
            == k) {
            self.lemma_first_child_with_kind_bounds(p, k, j + 1);
        }
    }

    /// The first child of node `p` reached through the named relation `f`,
    /// if any — the analogue of looking a child up by its field name.
    pub fn child_by_field(&self, p: usize, f: FieldLabel) -> (r: Option<usize>)
        requires
            p < self.nodes@.len(),
        ensures
            match r {
                Some(c) => {
                    &&& self.first_child_with_field_from(p as int, f, p as int + 1) == Some(
                        c as int,
                    )
                    &&& c < self.nodes@.len()
                },
                None => self.first_child_with_field_from(p as int, f, p as int + 1) is None,
            },
    {
        let n = self.nodes.len();
        let mut j: usize = p + 1;
        while j < n
            invariant
                p < j <= n,
                self.first_child_with_field_from(p as int, f, p as int + 1)
                    == self.first_child_with_field_from(p as int, f, j as int),
            decreases n - j,
        {
            if self.nodes[j].parent == p && self.nodes[j].field == f {
                return Some(j);
            }
            j = j + 1;
        }
        None
    }

    /// The first child of node `p` whose kind is `k`, if any — the analogue
    /// of scanning a node's children in order for a given construct.
    pub fn child_by_kind(&self, p: usize, k: NodeKind) -> (r: Option<usize>)
        requires
            p < self.nodes@.len(),
        ensures
            match r {
                Some(c) => {
                    &&& self.first_child_with_kind_from(p as int, k, p as int + 1) == Some(c as int)
                    &&& c < self.nodes@.len()
                },
                None => self.first_child_with_kind_from(p as int, k, p as int + 1) is None,
            },
    {
        let n = self.nodes.len();
        let mut j: usize = p + 1;
        while j < n
            invariant
                p < j <= n,
                self.first_child_with_kind_from(p as int, k, p as int + 1)
                    == self.first_child_with_kind_from(p as int, k, j as int),
            decreases n - j,
        {
            if self.nodes[j].parent == p && self.nodes[j].kind == k {
                return Some(j);
            }
            j = j + 1;
        }
        None
    }
}

} // verus!
