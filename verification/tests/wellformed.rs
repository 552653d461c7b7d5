use ts_complexity::tree::FieldLabel;
use ts_complexity::tree::NodeKind;
use ts_complexity::tree::SyntaxNode;
use ts_complexity::tree::SyntaxTree;

fn plain(start_row: usize, end_row: usize, parent: usize, subtree_end: usize) -> SyntaxNode {
    SyntaxNode {
        kind: NodeKind::Other,
        field: FieldLabel::Unlabeled,
        text: None,
        start_row,
        end_row,
        parent,
        subtree_end,
    }
}

#[test]
fn well_formed_arena_passes() {
    let t = SyntaxTree {
        nodes: vec![plain(0, 2, 0, 3), plain(0, 1, 0, 2), plain(2, 2, 0, 3)],
    };
    assert!(t.wf_check());
}

#[test]
fn empty_arena_is_well_formed() {
    let t = SyntaxTree { nodes: vec![] };
    assert!(t.wf_check());
}

#[test]
fn empty_subtree_range_is_rejected() {
    let t = SyntaxTree { nodes: vec![plain(0, 0, 0, 0)] };
    assert!(!t.wf_check());
}

#[test]
fn subtree_end_past_arena_is_rejected() {
    let t = SyntaxTree { nodes: vec![plain(0, 0, 0, 2)] };
    assert!(!t.wf_check());
}

#[test]
fn reversed_row_span_is_rejected() {
    let t = SyntaxTree { nodes: vec![plain(3, 1, 0, 1)] };
    assert!(!t.wf_check());
}

#[test]
fn parent_not_before_child_is_rejected() {
    let t = SyntaxTree {
        nodes: vec![plain(0, 0, 0, 2), plain(0, 0, 1, 2)],
    };
    assert!(!t.wf_check());
}

#[test]
fn root_must_be_its_own_parent() {
    let t = SyntaxTree { nodes: vec![plain(0, 0, 1, 1)] };
    assert!(!t.wf_check());
}

#[test]
fn child_lookup_finds_first_match_in_document_order() {
    let t = SyntaxTree {
        nodes: vec![
            plain(0, 0, 0, 4),
            SyntaxNode {
                kind: NodeKind::Identifier,
                field: FieldLabel::Unlabeled,
                text: Some("a".to_string()),
                start_row: 0,
                end_row: 0,
                parent: 0,
                subtree_end: 2,
            },
            SyntaxNode {
                kind: NodeKind::Identifier,
                field: FieldLabel::NameField,
                text: Some("b".to_string()),
                start_row: 0,
                end_row: 0,
                parent: 0,
                subtree_end: 3,
            },
            SyntaxNode {
                kind: NodeKind::Identifier,
                field: FieldLabel::NameField,
                text: Some("c".to_string()),
                start_row: 0,
                end_row: 0,
                parent: 0,
                subtree_end: 4,
            },
        ],
    };
    assert!(t.wf_check());
    assert_eq!(t.child_by_kind(0, NodeKind::Identifier), Some(1));
    assert_eq!(t.child_by_field(0, FieldLabel::NameField), Some(2));
    assert_eq!(t.child_by_field(0, FieldLabel::BodyField), None);
    assert_eq!(t.child_by_kind(0, NodeKind::Pair), None);
}
