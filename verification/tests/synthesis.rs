use file_diagnostics::{
    diagnostics, AttrSet, Diagnostic, DiagnosticKind, ExprId, FileAnalysis, FileId,
    LivenessResult, NameDefId, ParseError, SourceMap, SourceRange, SourceRootClosure, SyntaxNode,
    WithExpr,
};

fn range(start: u32, end: u32) -> SourceRange {
    SourceRange::new(start, end).expect("start <= end")
}

/// The range of the first occurrence of `needle` in `text` at or behind `from`.
fn find(text: &str, needle: &str, from: usize) -> SourceRange {
    let start = from + text[from..].find(needle).expect("needle occurs");
    range(start as u32, (start + needle.len()) as u32)
}

/// The analysis of a file that stands alone and in which no pass found
/// anything.
fn clean(file: u32) -> FileAnalysis {
    FileAnalysis {
        file: FileId(file),
        source_root_closure: SourceRootClosure::new(),
        parse_errors: Vec::new(),
        lowering_diagnostics: Vec::new(),
        liveness: LivenessResult {
            unused_name_defs: Vec::new(),
            unused_withs: Vec::new(),
            unused_recs: Vec::new(),
        },
        source_map: SourceMap::new(),
    }
}

/// One line for each diagnostic, as a front end would show it.
fn render(diagnostics: &[Diagnostic]) -> String {
    let mut out = String::new();
    for diagnostic in diagnostics {
        let message = match &diagnostic.kind {
            DiagnosticKind::FileNotReferenced => {
                "File not referenced from entry files via any paths"
            }
            DiagnosticKind::SyntaxError(message) => message.as_str(),
            DiagnosticKind::LoweringError(message) => message.as_str(),
            DiagnosticKind::UnusedBinding => "Unused binding",
            DiagnosticKind::UnusedWith => "Unused `with`",
            DiagnosticKind::UnusedRec => "Unused `rec`",
        };
        out.push_str(&format!(
            "{}..{}: {}\n",
            diagnostic.range.start(),
            diagnostic.range.end(),
            message
        ));
    }
    out
}

#[test]
fn syntax_error() {
    let text = "1 == 2 == 3";
    let mut analysis = clean(0);
    analysis.parse_errors.push(ParseError {
        range: find(text, "==", 3),
        message: String::from("Invalid usage of no-associative operators"),
    });
    let got = diagnostics(&analysis);
    assert!(!got.is_empty());
    assert_eq!(render(&got), "7..9: Invalid usage of no-associative operators\n");
    assert_eq!(
        got,
        vec![Diagnostic::new(
            range(7, 9),
            DiagnosticKind::SyntaxError(String::from("Invalid usage of no-associative operators")),
        )]
    );
}

#[test]
fn lower_error() {
    let text = "{ a = 1; a = 2; }";
    let mut analysis = clean(0);
    let first = find(text, "a", 0);
    let second = find(text, "a", 3);
    for name in [first, second] {
        analysis.lowering_diagnostics.push(Diagnostic::new(
            name,
            DiagnosticKind::LoweringError(String::from("Duplicated name definition")),
        ));
    }
    let got = diagnostics(&analysis);
    assert!(!got.is_empty());
    assert_eq!(
        render(&got),
        "2..3: Duplicated name definition\n9..10: Duplicated name definition\n"
    );
    assert_eq!(got, analysis.lowering_diagnostics);
}

#[test]
fn liveness() {
    let text = "let a = a; b = 1; in with 1; b + rec { }";
    let end = text.len() as u32;
    let with_token = find(text, "with", 0);
    let semicolon = find(text, ";", with_token.end() as usize);
    let rec_token = find(text, "rec", 0);
    let mut analysis = clean(0);
    analysis.liveness.unused_name_defs.push(NameDefId(0));
    analysis.liveness.unused_withs.push(ExprId(3));
    analysis.liveness.unused_recs.push(ExprId(7));
    analysis.source_map.insert_name_def(NameDefId(0), SyntaxNode::Other(find(text, "a", 0)));
    analysis.source_map.insert_name_def(NameDefId(1), SyntaxNode::Other(find(text, "b", 0)));
    analysis.source_map.insert_expr(
        ExprId(3),
        SyntaxNode::With(WithExpr {
            range: range(with_token.start(), end),
            with_token: Some(with_token),
            semicolon_token: Some(semicolon),
        }),
    );
    analysis.source_map.insert_expr(
        ExprId(7),
        SyntaxNode::AttrSet(AttrSet {
            range: range(rec_token.start(), end),
            rec_token: Some(rec_token),
        }),
    );
    let got = diagnostics(&analysis);
    assert!(!got.is_empty());
    assert_eq!(
        render(&got),
        "4..5: Unused binding\n21..28: Unused `with`\n33..36: Unused `rec`\n"
    );
    assert_eq!(
        got,
        vec![
            Diagnostic::new(range(4, 5), DiagnosticKind::UnusedBinding),
            Diagnostic::new(range(21, 28), DiagnosticKind::UnusedWith),
            Diagnostic::new(range(33, 36), DiagnosticKind::UnusedRec),
        ]
    );
}

#[test]
fn file_references() {
    // `/default.nix` holds `./foo.nix`, `/foo.nix` holds `42`, and nothing
    // names `/bar.nix`, which holds `24`.
    let (default_nix, foo_nix, bar_nix) = (FileId(0), FileId(1), FileId(2));
    let mut analysis = clean(2);
    assert_eq!(analysis.file, bar_nix);
    analysis.source_root_closure.insert(default_nix);
    analysis.source_root_closure.insert(foo_nix);
    let got = diagnostics(&analysis);
    assert!(!got.is_empty());
    assert_eq!(render(&got), "0..0: File not referenced from entry files via any paths\n");
    assert_eq!(got, vec![Diagnostic::new(range(0, 0), DiagnosticKind::FileNotReferenced)]);
}

/// An analysis in which every pass found something, and the file is not
/// reached.
fn busy() -> FileAnalysis {
    let mut analysis = clean(3);
    analysis.source_root_closure.insert(FileId(0));
    analysis.parse_errors.push(ParseError {
        range: range(50, 51),
        message: String::from("unexpected token"),
    });
    analysis.parse_errors.push(ParseError {
        range: range(2, 3),
        message: String::from("missing brace"),
    });
    analysis.lowering_diagnostics.push(Diagnostic::new(
        range(40, 41),
        DiagnosticKind::LoweringError(String::from("duplicated name")),
    ));
    analysis.lowering_diagnostics.push(Diagnostic::new(
        range(1, 2),
        DiagnosticKind::LoweringError(String::from("empty inherit")),
    ));
    analysis.liveness.unused_name_defs.push(NameDefId(1));
    analysis.liveness.unused_name_defs.push(NameDefId(0));
    analysis.liveness.unused_withs.push(ExprId(1));
    analysis.liveness.unused_withs.push(ExprId(8));
    analysis.liveness.unused_withs.push(ExprId(0));
    analysis.liveness.unused_recs.push(ExprId(3));
    analysis.liveness.unused_recs.push(ExprId(2));
    analysis.source_map.insert_name_def(NameDefId(0), SyntaxNode::Other(range(4, 5)));
    analysis.source_map.insert_name_def(NameDefId(1), SyntaxNode::Other(range(11, 12)));
    analysis.source_map.insert_expr(
        ExprId(0),
        SyntaxNode::With(WithExpr {
            range: range(21, 40),
            with_token: Some(range(21, 25)),
            semicolon_token: Some(range(27, 28)),
        }),
    );
    analysis.source_map.insert_expr(
        ExprId(1),
        SyntaxNode::With(WithExpr {
            range: range(60, 70),
            with_token: Some(range(60, 64)),
            semicolon_token: None,
        }),
    );
    analysis.source_map.insert_expr(
        ExprId(2),
        SyntaxNode::AttrSet(AttrSet { range: range(33, 40), rec_token: Some(range(33, 36)) }),
    );
    analysis.source_map.insert_expr(
        ExprId(3),
        SyntaxNode::AttrSet(AttrSet { range: range(80, 90), rec_token: None }),
    );
    analysis
}

#[test]
fn nothing_found_nothing_said() {
    assert_eq!(diagnostics(&clean(0)), Vec::new());
}

#[test]
fn parts_come_in_the_order_of_the_passes() {
    let got = diagnostics(&busy());
    assert_eq!(
        render(&got),
        "0..0: File not referenced from entry files via any paths\n\
         50..51: unexpected token\n\
         2..3: missing brace\n\
         40..41: duplicated name\n\
         1..2: empty inherit\n\
         11..12: Unused binding\n\
         4..5: Unused binding\n\
         60..70: Unused `with`\n\
         21..28: Unused `with`\n\
         80..90: Unused `rec`\n\
         33..36: Unused `rec`\n"
    );
    assert_eq!(got[1].kind, DiagnosticKind::SyntaxError(String::from("unexpected token")));
    assert_eq!(got[3].kind, DiagnosticKind::LoweringError(String::from("duplicated name")));
}

#[test]
fn asking_twice_gives_the_same_answer() {
    let analysis = busy();
    let first = diagnostics(&analysis);
    let second = diagnostics(&analysis);
    assert_eq!(first, second);
    assert_eq!(render(&first).into_bytes(), render(&second).into_bytes());
}

#[test]
fn the_same_results_built_apart_give_the_same_answer() {
    let one = busy();
    let mut other = busy();
    // The same nodes once more, in another order.
    other.source_map.insert_expr(
        ExprId(3),
        SyntaxNode::AttrSet(AttrSet { range: range(80, 90), rec_token: None }),
    );
    other.source_map.insert_name_def(NameDefId(1), SyntaxNode::Other(range(11, 12)));
    other.source_root_closure.insert(FileId(0));
    assert_eq!(diagnostics(&one), diagnostics(&other));
}

#[test]
fn file_alone_is_never_unreferenced() {
    for file in [0, 1, 2, 1000] {
        let mut analysis = busy();
        analysis.file = FileId(file);
        analysis.source_root_closure = SourceRootClosure::new();
        let got = diagnostics(&analysis);
        assert_eq!(got.len(), 10);
        assert!(got.iter().all(|d| d.kind != DiagnosticKind::FileNotReferenced));
    }
}

#[test]
fn unreached_file_is_said_so_once_and_first() {
    let got = diagnostics(&busy());
    assert_eq!(got[0], Diagnostic::new(range(0, 0), DiagnosticKind::FileNotReferenced));
    let count = got.iter().filter(|d| d.kind == DiagnosticKind::FileNotReferenced).count();
    assert_eq!(count, 1);
}

#[test]
fn reached_file_is_not_said_unreferenced() {
    let mut analysis = busy();
    analysis.source_root_closure.insert(FileId(3));
    let got = diagnostics(&analysis);
    assert_eq!(got.len(), 10);
    assert!(got.iter().all(|d| d.kind != DiagnosticKind::FileNotReferenced));
    assert_eq!(got, diagnostics(&busy())[1..].to_vec());
}

#[test]
fn unresolved_definition_is_found_before_the_synthesis() {
    let mut analysis = busy();
    assert_eq!(analysis.first_unresolved_name_def(), None);
    analysis.liveness.unused_name_defs.push(NameDefId(6));
    analysis.liveness.unused_name_defs.push(NameDefId(7));
    assert_eq!(analysis.first_unresolved_name_def(), Some(NameDefId(6)));
    analysis.source_map.insert_name_def(NameDefId(6), SyntaxNode::Other(range(0, 1)));
    assert_eq!(analysis.first_unresolved_name_def(), Some(NameDefId(7)));
    analysis.source_map.insert_name_def(NameDefId(7), SyntaxNode::Other(range(1, 2)));
    assert_eq!(analysis.first_unresolved_name_def(), None);
    assert_eq!(diagnostics(&analysis).len(), 13);
}

#[test]
fn unused_with_without_semicolon_underlines_the_whole_expression() {
    let text = "with 1 b";
    let mut analysis = clean(0);
    analysis.liveness.unused_withs.push(ExprId(0));
    analysis.source_map.insert_expr(
        ExprId(0),
        SyntaxNode::With(WithExpr {
            range: range(0, text.len() as u32),
            with_token: Some(find(text, "with", 0)),
            semicolon_token: None,
        }),
    );
    assert_eq!(
        diagnostics(&analysis),
        vec![Diagnostic::new(range(0, 8), DiagnosticKind::UnusedWith)]
    );
}

#[test]
fn unused_with_or_rec_without_a_node_is_passed_over() {
    let mut analysis = clean(0);
    analysis.liveness.unused_withs.push(ExprId(0));
    analysis.liveness.unused_recs.push(ExprId(1));
    assert_eq!(diagnostics(&analysis), Vec::new());
}
