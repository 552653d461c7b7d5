//! Function discovery and cyclomatic-complexity calculation over a
//! [`crate::tree::SyntaxTree`].
use vstd::prelude::*;
use crate::tree::FieldLabel;
use crate::tree::NodeKind;
use crate::tree::SyntaxTree;

verus! {

/// One branch-inducing construct found inside a function body.
#[derive(Debug, PartialEq, Eq)]
pub struct ComplexityContribution {
    pub line: usize,
    pub kind: String,
    pub description: String,
}

/// The mathematical value of a [`ComplexityContribution`].
pub struct ContributionView {
    pub line: int,
    pub kind: Seq<char>,
    pub description: Seq<char>,
}

impl View for ComplexityContribution {
    type V = ContributionView;

    open spec fn view(&self) -> ContributionView {
        ContributionView {
            line: self.line as int,
            kind: self.kind@,
            description: self.description@,
        }
    }
}

/// True of the node kinds that mark a function-like construct.
pub open spec fn is_function_kind(k: NodeKind) -> bool {
    ||| k == NodeKind::FunctionDeclaration
    ||| k == NodeKind::MethodDefinition
    ||| k == NodeKind::ArrowFunction
    ||| k == NodeKind::FunctionExpression
}

/// The complexity contribution of the single node `j`, if its kind (and, for
/// a binary expression, its operator text) marks a branch-inducing construct.
pub open spec fn contribution_at(t: SyntaxTree, j: int) -> Option<ContributionView> {
    let n = t.nodes@[j];
    let line = n.start_row as int;
    match n.kind {
        NodeKind::IfStatement => Some(
            ContributionView {
                line,
                kind: "if"@,
                description: "Branch introduced by if-statement."@,
            },
        ),
        NodeKind::ForStatement => Some(
            ContributionView {
                line,
                kind: "for"@,
                description: "Branch introduced by for-statement."@,
            },
        ),
        NodeKind::WhileStatement => Some(
            ContributionView {
                line,
                kind: "while"@,
                description: "Branch introduced by while-statement."@,
            },
        ),
        NodeKind::DoStatement => Some(
            ContributionView {
                line,
                kind: "do-while"@,
                description: "Branch introduced by do-while-statement."@,
            },
        ),
        NodeKind::SwitchStatement => Some(
            ContributionView {
                line,
                kind: "switch"@,
                description: "Branch introduced by switch-statement."@,
            },
        ),
        NodeKind::SwitchCase => Some(
            ContributionView { line, kind: "case"@, description: "Branch introduced by case."@ },
        ),
        NodeKind::ConditionalExpression => Some(
            ContributionView {
                line,
                kind: "ternary"@,
                description: "Branch introduced by ternary operator."@,
            },
        ),
        NodeKind::BinaryExpression => match t.first_child_with_field_from(
            j,
            FieldLabel::OperatorField,
            j + 1,
        ) {
            Some(op) => match t.nodes@[op].text {
                Some(s) => if s@ == "&&"@ {
                    Some(
                        ContributionView {
                            line,
                            kind: "&&"@,
                            description: "Logical operator '&&' introduces a branch"@,
                        },
                    )
                } else if s@ == "||"@ {
                    Some(
                        ContributionView {
                            line,
                            kind: "||"@,
                            description: "Logical operator '||' introduces a branch"@,
                        },
                    )
                } else {
                    None
                },
                None => None,
            },
            None => None,
        },
        _ => None,
    }
}

/// The contributions of the index range `[a, b)`, in document order.
pub open spec fn contribs_range(t: SyntaxTree, a: int, b: int) -> Seq<ContributionView>
    decreases b - a,
{
    if b <= a {
        Seq::empty()
    } else {
        contribs_range(t, a, b - 1) + match contribution_at(t, b - 1) {
            Some(c) => seq![c],
            None => Seq::empty(),
        }
    }
}

/// The contributions of the whole subtree rooted at `b` — the body node and
/// everything beneath it, nested function bodies included, since traversal
/// does not stop at a nested-function boundary.
pub open spec fn body_contributions(t: SyntaxTree, b: int) -> Seq<ContributionView> {
    contribs_range(t, b, t.nodes@[b].subtree_end as int)
}

/// The complexity score of the body rooted at `b`: one linear path plus one
/// per recorded contribution.
pub open spec fn body_complexity(t: SyntaxTree, b: int) -> int {
    1 + body_contributions(t, b).len() as int
}

/// Walks the body subtree rooted at `body` and returns its complexity score
/// together with the ordered list of branch-inducing constructs found.
///
/// The score is always at least 1 and always exactly one more than the number
/// of contributions.
pub fn calculate_complexity(t: &SyntaxTree, body: usize) -> (r: (usize, Vec<
    ComplexityContribution,
>))
    requires
        t.wf(),
        body < t.nodes@.len(),
    ensures
        r.1@.map_values(|c: ComplexityContribution| c@) == body_contributions(*t, body as int),
        r.0 == 1 + r.1@.len(),
        r.0 >= 1,
{
    let mut out: Vec<ComplexityContribution> = Vec::new();
    assert(t.wf_at(body as int));
    let end: usize = t.nodes[body].subtree_end;
    let mut j: usize = body;
    while j < end
        invariant
            body <= j <= end,
            out@.map_values(|c: ComplexityContribution| c@) == contribs_range(
                *t,
                body as int,
                j as int,
            ),
            out@.len() <= j - body,
        decreases end - j,
    {
        if let Some(c) = contribution_of(t, j) {
            out.push(c);
        }
        j = j + 1;
        assert(out@.map_values(|c: ComplexityContribution| c@) =~= contribs_range(
            *t,
            body as int,
            j as int,
        ));
    }
    let complexity: usize = 1 + out.len();
    (complexity, out)
}

/// Classifies the single node `j`, returning its contribution record if its
/// construct is branch-inducing.
fn contribution_of(t: &SyntaxTree, j: usize) -> (r: Option<ComplexityContribution>)
    requires
        t.wf(),
        j < t.nodes@.len(),
    ensures
        match r {
            Some(c) => contribution_at(*t, j as int) == Some(c@),
            None => contribution_at(*t, j as int) is None,
        },
{
    let line = t.nodes[j].start_row;
    match t.nodes[j].kind {
        NodeKind::IfStatement => Some(
            ComplexityContribution {
                line,
                kind: "if".to_owned(),
                description: "Branch introduced by if-statement.".to_owned(),
            },
        ),
        NodeKind::ForStatement => Some(
            ComplexityContribution {
                line,
                kind: "for".to_owned(),
                description: "Branch introduced by for-statement.".to_owned(),
            },
        ),
        NodeKind::WhileStatement => Some(
            ComplexityContribution {
                line,
                kind: "while".to_owned(),
                description: "Branch introduced by while-statement.".to_owned(),
            },
        ),
        NodeKind::DoStatement => Some(
            ComplexityContribution {
                line,
                kind: "do-while".to_owned(),
                description: "Branch introduced by do-while-statement.".to_owned(),
            },
        ),
        NodeKind::SwitchStatement => Some(
            ComplexityContribution {
                line,
                kind: "switch".to_owned(),
                description: "Branch introduced by switch-statement.".to_owned(),
            },
        ),
        NodeKind::SwitchCase => Some(
            ComplexityContribution {
                line,
                kind: "case".to_owned(),
                description: "Branch introduced by case.".to_owned(),
            },
        ),
        NodeKind::ConditionalExpression => Some(
            ComplexityContribution {
                line,
                kind: "ternary".to_owned(),
                description: "Branch introduced by ternary operator.".to_owned(),
            },
        ),
        NodeKind::BinaryExpression => match t.child_by_field(j, FieldLabel::OperatorField) {
            Some(op) => match &t.nodes[op].text {
                Some(s) => {
                    if s.eq(&"&&".to_owned()) {
                        Some(
                            ComplexityContribution {
                                line,
                                kind: "&&".to_owned(),
                                description: "Logical operator '&&' introduces a branch".to_owned(),
                            },
                        )
                    } else if s.eq(&"||".to_owned()) {
                        Some(
                            ComplexityContribution {
                                line,
                                kind: "||".to_owned(),
                                description: "Logical operator '||' introduces a branch".to_owned(),
                            },
                        )
                    } else {
                        None
                    }
                },
                None => None,
            },
            None => None,
        },
        _ => None,
    }
}

/// One record per discovered function-like construct: its resolved name, the
/// span of its body (zero-based line numbers), the number of line boundaries
/// that body crosses, and its complexity score with the full breakdown.
#[derive(Debug, PartialEq, Eq)]
pub struct FunctionInfo {
    pub name: String,
    pub start_line: usize,
    pub end_line: usize,
    pub line_count: usize,
    pub complexity: usize,
    pub contributions: Vec<ComplexityContribution>,
}

/// The mathematical value of a [`FunctionInfo`].
pub struct FunctionInfoView {
    pub name: Seq<char>,
    pub start_line: int,
    pub end_line: int,
    pub line_count: int,
    pub complexity: int,
    pub contributions: Seq<ContributionView>,
}

impl View for FunctionInfo {
    type V = FunctionInfoView;

    open spec fn view(&self) -> FunctionInfoView {
        FunctionInfoView {
            name: self.name@,
            start_line: self.start_line as int,
            end_line: self.end_line as int,
            line_count: self.line_count as int,
            complexity: self.complexity as int,
            contributions: self.contributions@.map_values(|c: ComplexityContribution| c@),
        }
    }
}

/// The marker reported when no name can be recovered for a function.
pub open spec fn anonymous_name() -> Seq<char> {
    "<anonymous>"@
}

/// The name bound to node `i` by an enclosing variable binding: if the
/// immediate parent is a variable declarator, the text of that declarator's
/// first identifier child. `None` when the parent is no such binding or the
/// identifier's text is unreadable.
pub open spec fn var_binding_name(t: SyntaxTree, i: int) -> Option<Seq<char>> {
    if i == 0 {
        None
    } else {
        let p = t.nodes@[i].parent as int;
        if t.nodes@[p].kind == NodeKind::VariableDeclarator {
            match t.first_child_with_kind_from(p, NodeKind::Identifier, p + 1) {
                Some(c) => match t.nodes@[c].text {
                    Some(s) => Some(s@),
                    None => None,
                },
                None => None,
            }
        } else {
            None
        }
    }
}

/// The name given to node `i` by an enclosing object-literal entry: if the
/// immediate parent is a key/value pair, the text at that pair's key
/// relation. `None` when the parent is no pair or the key's text is
/// unreadable.
pub open spec fn object_key_name(t: SyntaxTree, i: int) -> Option<Seq<char>> {
    if i == 0 {
        None
    } else {
        let p = t.nodes@[i].parent as int;
        if t.nodes@[p].kind == NodeKind::Pair {
            match t.first_child_with_field_from(p, FieldLabel::KeyField, p + 1) {
                Some(c) => match t.nodes@[c].text {
                    Some(s) => Some(s@),
                    None => None,
                },
                None => None,
            }
        } else {
            None
        }
    }
}

/// The resolved name of the function-like node `i`, first match winning:
/// declared/method name, enclosing variable binding, enclosing object key,
/// then the anonymous marker. `None` means the node is skipped altogether: a
/// declared name exists but its text is unreadable.
pub open spec fn resolved_name(t: SyntaxTree, i: int) -> Option<Seq<char>> {
    match t.nodes@[i].kind {
        NodeKind::FunctionDeclaration | NodeKind::MethodDefinition => match t.first_child_with_field_from(
            i,
            FieldLabel::NameField,
            i + 1,
        ) {
            None => Some(anonymous_name()),
            Some(c) => match t.nodes@[c].text {
                Some(s) => Some(s@),
                None => None,
            },
        },
        NodeKind::ArrowFunction | NodeKind::FunctionExpression => Some(
            match var_binding_name(t, i) {
                Some(s) => s,
                None => match object_key_name(t, i) {
                    Some(s) => s,
                    None => anonymous_name(),
                },
            },
        ),
        _ => Some(anonymous_name()),
    }
}

/// The body of the function-like node `i`: the child reached through the
/// body relation, or, failing that, the first child that is a statement
/// block. `None` when neither exists.
pub open spec fn body_of(t: SyntaxTree, i: int) -> Option<int> {
    match t.first_child_with_field_from(i, FieldLabel::BodyField, i + 1) {
        Some(b) => Some(b),
        None => t.first_child_with_kind_from(i, NodeKind::StatementBlock, i + 1),
    }
}

/// The record discovery emits for the function-like node `i`, or `None` when
/// the node is skipped (no locatable body, or a declared name whose text is
/// unreadable).
pub open spec fn node_info(t: SyntaxTree, i: int) -> Option<FunctionInfoView> {
    match resolved_name(t, i) {
        None => None,
        Some(name) => match body_of(t, i) {
            None => None,
            Some(b) => Some(
                FunctionInfoView {
                    name,
                    start_line: t.nodes@[b].start_row as int,
                    end_line: t.nodes@[b].end_row as int,
                    line_count: t.nodes@[b].end_row - t.nodes@[b].start_row,
                    complexity: body_complexity(t, b),
                    contributions: body_contributions(t, b),
                },
            ),
        },
    }
}

/// What node `i` adds to the discovered sequence: one record when it is
/// function-like and not skipped, nothing otherwise.
pub open spec fn node_records(t: SyntaxTree, i: int) -> Seq<FunctionInfoView> {
    if is_function_kind(t.nodes@[i].kind) {
        match node_info(t, i) {
            Some(fi) => seq![fi],
            None => Seq::empty(),
        }
    } else {
        Seq::empty()
    }
}

/// The records of the first `i` nodes of the arena, in document order.
pub open spec fn infos_upto(t: SyntaxTree, i: int) -> Seq<FunctionInfoView>
    decreases i,
{
    if i <= 0 {
        Seq::empty()
    } else {
        infos_upto(t, i - 1) + node_records(t, i - 1)
    }
}

/// The canonical discovery result for a tree: every function-like node's
/// record, in document order, skipped nodes omitted.
pub open spec fn discovered_functions(t: SyntaxTree) -> Seq<FunctionInfoView> {
    infos_upto(t, t.nodes@.len() as int)
}

/// True exactly of the kinds that mark a function-like construct.
fn is_function_like(k: NodeKind) -> (b: bool)
    ensures
        b == is_function_kind(k),
{
    match k {
        NodeKind::FunctionDeclaration
        | NodeKind::MethodDefinition
        | NodeKind::ArrowFunction
        | NodeKind::FunctionExpression => true,
        _ => false,
    }
}

/// Recovers the name bound to node `node` by an enclosing variable
/// declarator, exactly as [`var_binding_name`] states.
pub fn find_variable_name(t: &SyntaxTree, node: usize) -> (r: Option<String>)
    requires
        t.wf(),
        node < t.nodes@.len(),
    ensures
        match r {
            Some(s) => var_binding_name(*t, node as int) == Some(s@),
            None => var_binding_name(*t, node as int) is None,
        },
{
    if node == 0 {
        return None;
    }
    assert(t.wf_at(node as int));
    let p = t.nodes[node].parent;
    if t.nodes[p].kind == NodeKind::VariableDeclarator {
        match t.child_by_kind(p, NodeKind::Identifier) {
            Some(c) => match &t.nodes[c].text {
                Some(s) => Some(s.clone()),
                None => None,
            },
            None => None,
        }
    } else {
        None
    }
}

/// Recovers the key under which node `node` stands in an enclosing
/// object-literal pair, exactly as [`object_key_name`] states.
pub fn find_object_key(t: &SyntaxTree, node: usize) -> (r: Option<String>)
    requires
        t.wf(),
        node < t.nodes@.len(),
    ensures
        match r {
            Some(s) => object_key_name(*t, node as int) == Some(s@),
            None => object_key_name(*t, node as int) is None,
        },
{
    if node == 0 {
        return None;
    }
    assert(t.wf_at(node as int));
    let p = t.nodes[node].parent;
    if t.nodes[p].kind == NodeKind::Pair {
        match t.child_by_field(p, FieldLabel::KeyField) {
            Some(c) => match &t.nodes[c].text {
                Some(s) => Some(s.clone()),
                None => None,
            },
            None => None,
        }
    } else {
        None
    }
}

/// Locates the executable body of the function-like node `node`, exactly as
/// [`body_of`] states: the body relation first, else the first statement
/// block among the children.
pub fn find_body(t: &SyntaxTree, node: usize) -> (r: Option<usize>)
    requires
        t.wf(),
        node < t.nodes@.len(),
    ensures
        match r {
            Some(b) => body_of(*t, node as int) == Some(b as int) && b < t.nodes@.len(),
            None => body_of(*t, node as int) is None,
        },
{
    match t.child_by_field(node, FieldLabel::BodyField) {
        Some(b) => Some(b),
        None => t.child_by_kind(node, NodeKind::StatementBlock),
    }
}

/// Builds the record for one function-like node: resolves its name, locates
/// its body, and scores that body. Returns `None` exactly when discovery
/// skips the node: no locatable body, or a declared name whose text is
/// unreadable.
pub fn extract_function_info(t: &SyntaxTree, node: usize) -> (r: Option<FunctionInfo>)
    requires
        t.wf(),
        node < t.nodes@.len(),
    ensures
        match r {
            Some(fi) => node_info(*t, node as int) == Some(fi@),
            None => node_info(*t, node as int) is None,
        },
        match r {
            Some(fi) => {
                &&& fi.complexity == 1 + fi.contributions@.len()
                &&& fi.start_line <= fi.end_line
                &&& fi.line_count == fi.end_line - fi.start_line
            },
            None => true,
        },
{
    let name_opt: Option<String> = match t.nodes[node].kind {
        NodeKind::FunctionDeclaration | NodeKind::MethodDefinition => {
            match t.child_by_field(node, FieldLabel::NameField) {
                None => Some("<anonymous>".to_owned()),
                Some(c) => match &t.nodes[c].text {
                    Some(s) => Some(s.clone()),
                    None => None,
                },
            }
        },
        NodeKind::ArrowFunction | NodeKind::FunctionExpression => {
            match find_variable_name(t, node) {
                Some(n) => Some(n),
                None => match find_object_key(t, node) {
                    Some(n) => Some(n),
                    None => Some("<anonymous>".to_owned()),
                },
            }
        },
        _ => Some("<anonymous>".to_owned()),
    };
    let name = match name_opt {
        Some(n) => n,
        None => {
            return None;
        },
    };
    assert(resolved_name(*t, node as int) == Some(name@));
    let body = match find_body(t, node) {
        Some(b) => b,
        None => {
            return None;
        },
    };
    let (complexity, contributions) = calculate_complexity(t, body);
    assert(t.wf_at(body as int));
    let start = t.nodes[body].start_row;
    let end = t.nodes[body].end_row;
    let count = end - start;
    Some(
        FunctionInfo {
            name,
            start_line: start,
            end_line: end,
            line_count: count,
            complexity,
            contributions,
        },
    )
}

/// Discovers every function-like construct of the tree, in document order
/// (outer functions before the nested functions they contain), and returns
/// one record per construct. Nodes whose body cannot be located, or whose
/// declared name is unreadable, are silently omitted; the rest of the tree is
/// still analyzed. Every returned record scores one more than its
/// contribution count and carries an ordered body span.
pub fn extract_functions(t: &SyntaxTree) -> (r: Vec<FunctionInfo>)
    requires
        t.wf(),
    ensures
        r@.map_values(|fi: FunctionInfo| fi@) == discovered_functions(*t),
        forall|k: int|
            0 <= k < r@.len() ==> {
                &&& (#[trigger] r@[k]).complexity == 1 + r@[k].contributions@.len()
                &&& r@[k].start_line <= r@[k].end_line
                &&& r@[k].line_count == r@[k].end_line - r@[k].start_line
            },
{
    let mut out: Vec<FunctionInfo> = Vec::new();
    let n = t.nodes.len();
    let mut i: usize = 0;
    while i < n
        invariant
            i <= n,
            out@.map_values(|fi: FunctionInfo| fi@) == infos_upto(*t, i as int),
            forall|k: int|
                0 <= k < out@.len() ==> {
                    &&& (#[trigger] out@[k]).complexity == 1 + out@[k].contributions@.len()
                    &&& out@[k].start_line <= out@[k].end_line
                    &&& out@[k].line_count == out@[k].end_line - out@[k].start_line
                },
        decreases n - i,
    {
        if is_function_like(t.nodes[i].kind) {
            if let Some(info) = extract_function_info(t, i) {
                out.push(info);
            }
        }
        i = i + 1;
        assert(out@.map_values(|fi: FunctionInfo| fi@) =~= infos_upto(*t, i as int));
    }
    out
}

/// Law: discovery is deterministic. Each run of [`extract_functions`] yields,
/// by its contract, the one canonical sequence [`discovered_functions`] of its
/// tree, so any two results over the same tree are the same sequence.
pub proof fn lemma_discovery_deterministic(
    t: SyntaxTree,
    r1: Seq<FunctionInfoView>,
    r2: Seq<FunctionInfoView>,
)
    requires
        r1 == discovered_functions(t),
        r2 == discovered_functions(t),
    ensures
        r1 == r2,
{
}

proof fn lemma_infos_upto_invariants(t: SyntaxTree, i: int, k: int)
    requires
        t.wf(),
        i <= t.nodes@.len(),
        0 <= k < infos_upto(t, i).len(),
    ensures
        ({
            let fi = infos_upto(t, i)[k];
            &&& fi.complexity == 1 + fi.contributions.len()
            &&& 0 <= fi.start_line <= fi.end_line
            &&& fi.line_count == fi.end_line - fi.start_line
        }),
    decreases i,
{
    if i > 0 {
        if k < infos_upto(t, i - 1).len() {
            lemma_infos_upto_invariants(t, i - 1, k);
        } else {
            t.lemma_first_child_with_field_bounds(i - 1, FieldLabel::BodyField, i);
            t.lemma_first_child_with_kind_bounds(i - 1, NodeKind::StatementBlock, i);
            let b = body_of(t, i - 1)->Some_0;
            assert(t.wf_at(b));
        }
    }
}

/// Law: every record discovery can ever emit scores exactly one more than
/// its contribution count, and its body span is ordered, with `line_count`
/// the number of line boundaries the body crosses.
pub proof fn lemma_record_invariants(t: SyntaxTree, k: int)
    requires
        t.wf(),
        0 <= k < discovered_functions(t).len(),
    ensures
        ({
            let fi = discovered_functions(t)[k];
            &&& fi.complexity == 1 + fi.contributions.len()
            &&& 0 <= fi.start_line <= fi.end_line
            &&& fi.line_count == fi.end_line - fi.start_line
        }),
{
    lemma_infos_upto_invariants(t, t.nodes@.len() as int, k);
}

proof fn lemma_contribs_range_all_inert(t: SyntaxTree, a: int, b: int)
    requires
        forall|j: int| a <= j < b ==> #[trigger] contribution_at(t, j) is None,
    ensures
        contribs_range(t, a, b) == Seq::<ContributionView>::empty(),
    decreases b - a,
{
    if b > a {
        lemma_contribs_range_all_inert(t, a, b - 1);
        assert(contribs_range(t, a, b) =~= Seq::<ContributionView>::empty());
    }
}

/// Law: a body with no branch-inducing construct anywhere beneath it yields
/// an empty contribution list and a complexity score of exactly 1.
pub proof fn lemma_straight_line_body(t: SyntaxTree, b: int)
    requires
        0 <= b < t.nodes@.len(),
        forall|j: int|
            b <= j < t.nodes@[b].subtree_end ==> #[trigger] contribution_at(t, j) is None,
    ensures
        body_contributions(t, b) == Seq::<ContributionView>::empty(),
        body_complexity(t, b) == 1,
{
    lemma_contribs_range_all_inert(t, b, t.nodes@[b].subtree_end as int);
}

} // verus!
