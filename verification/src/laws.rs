//! The general laws of the engine, stated and proved over its model: what
//! holds of every input, not of chosen examples.
use crate::config::ConfigView;
use crate::errors::SumiErrorView;
use crate::lint::classify_run;
use crate::lint::is_run_start;
use crate::lint::opt_err;
use crate::lint::spec_preprocess;
use crate::lint::spec_run_lint;
use crate::lint::spec_validate_gitmoji;
use crate::lint::spec_validate_header_pattern;
use crate::lint::spec_validate_no_period;
use crate::lint::spec_validate_parsed;
use crate::lint::spec_validate_type_scope;
use crate::lint::spec_validate_ws_len;
use crate::lint::ws_issues;
use crate::lint::ws_issues_from;
use crate::lint::ws_run_end;
use crate::lint::LintOutcome;
use crate::outside::char_is_whitespace;
use crate::outside::conv_parse;
use crate::parser::basic_parse;
use crate::parser::conventional_parse;
use crate::parser::spec_handle_parsing;
use crate::parser::spec_strip;
use crate::parser::ParsedCommitView;
use crate::text::dec_str;
use crate::text::lemma_dec_str_len;
use crate::text::lemma_scan_while;
use vstd::prelude::*;

verus! {

// ---------------------------------------------------------------------------
// The empty header is fatal
// ---------------------------------------------------------------------------

/// A message that comes out of preprocessing empty has no header, and its
/// lint outcome is the empty-header fatal failure, whatever the rule
/// configuration says: no grammar, fallback or rule set changes it.
pub proof fn lemma_empty_header_fatal(raw: Seq<char>, cfg: ConfigView)
    requires
        spec_preprocess(raw).len() == 0,
    ensures
        spec_run_lint(raw, cfg) == LintOutcome::Fatal(SumiErrorView::EmptyCommitHeader),
{
    let m = spec_preprocess(raw);
    assert(basic_parse(m, cfg.gitmoji) == Err::<ParsedCommitView, SumiErrorView>(
        SumiErrorView::EmptyCommitHeader,
    ));
    if cfg.conventional {
        assert(conventional_parse(m, cfg.gitmoji) == Err::<ParsedCommitView, SumiErrorView>(
            SumiErrorView::EmptyCommitHeader,
        ));
    }
}

/// The empty input itself preprocesses to nothing, so linting it is the
/// empty-header fatal failure under every configuration.
pub proof fn lemma_empty_input_fatal(cfg: ConfigView)
    ensures
        spec_run_lint(Seq::<char>::empty(), cfg) == LintOutcome::Fatal(
            SumiErrorView::EmptyCommitHeader,
        ),
{
    assert(crate::text::lines_of(Seq::<char>::empty()) =~= Seq::<Seq<char>>::empty());
    assert(spec_preprocess(Seq::<char>::empty()).len() == 0);
    lemma_empty_header_fatal(Seq::<char>::empty(), cfg);
}

// ---------------------------------------------------------------------------
// Whitespace issues are independent
// ---------------------------------------------------------------------------

proof fn lemma_ws_issue_at(s: Seq<char>, i: int, j: int)
    requires
        0 <= i <= j,
        is_run_start(s, j),
        classify_run(s, j) is Some,
    ensures
        ws_issues_from(s, i).contains(classify_run(s, j)->Some_0),
    decreases j - i,
{
    let x = classify_run(s, j)->Some_0;
    if i == j {
        assert(ws_issues_from(s, i)[0] == x);
    } else {
        if is_run_start(s, i) {
            let e = ws_run_end(s, i);
            lemma_scan_while(s, i, |c: char| char_is_whitespace(c));
            if e > j {
                assert(char_is_whitespace(s[j - 1]));
                assert(false);
            }
            lemma_ws_issue_at(s, e, j);
            let rest = ws_issues_from(s, e);
            assert(rest.contains(x));
            let k = choose|k: int| 0 <= k < rest.len() && rest[k] == x;
            match classify_run(s, i) {
                Some(l) => {
                    assert(ws_issues_from(s, i)[k + 1] == x);
                },
                None => {
                    assert(ws_issues_from(s, i) == rest);
                },
            }
        } else {
            lemma_ws_issue_at(s, i + 1, j);
        }
    }
}

/// Whitespace issues are found independently of one another: a line whose
/// first character is white space, and which holds an interior run of two
/// or more white-space characters, is reported for both — the leading
/// space and the adjacent run, as two distinct issues.
pub proof fn lemma_whitespace_issues_independent(s: Seq<char>, j: int)
    requires
        s.len() > 0,
        char_is_whitespace(s[0]),
        is_run_start(s, j),
        0 < j,
        ws_run_end(s, j) < s.len(),
        ws_run_end(s, j) - j >= 2,
    ensures
        ws_issues(s).contains("Leading space"@),
        ws_issues(s).contains(dec_str((ws_run_end(s, j) - j) as nat) + " adjacent spaces"@),
        ws_issues(s).len() >= 2,
{
    let n = (ws_run_end(s, j) - j) as nat;
    assert(is_run_start(s, 0));
    assert(classify_run(s, 0) == Some("Leading space"@));
    lemma_ws_issue_at(s, 0, 0);
    assert(classify_run(s, j) == Some(dec_str(n) + " adjacent spaces"@));
    lemma_ws_issue_at(s, 0, j);
    let lead = "Leading space"@;
    let adj = dec_str(n) + " adjacent spaces"@;
    assert(lead != adj) by {
        reveal_strlit("Leading space");
        reveal_strlit(" adjacent spaces");
        lemma_dec_str_len(n);
        assert(lead.len() == 13);
        assert(adj.len() >= 17);
    }
    let a = choose|a: int| 0 <= a < ws_issues(s).len() && ws_issues(s)[a] == lead;
    let b = choose|b: int| 0 <= b < ws_issues(s).len() && ws_issues(s)[b] == adj;
    assert(a != b);
}

// ---------------------------------------------------------------------------
// The permissive grammar reports no more than the strict one
// ---------------------------------------------------------------------------

/// The failures an outcome carries: none for a valid run, the fatal
/// failure alone, or the collected list.
pub open spec fn outcome_errors(o: LintOutcome) -> Seq<SumiErrorView> {
    match o {
        LintOutcome::Valid(_) => seq![],
        LintOutcome::Fatal(f) => seq![f],
        LintOutcome::Invalid(es) => es,
    }
}

/// The configuration with the strict grammar switched on or off.
pub open spec fn with_conventional(cfg: ConfigView, on: bool) -> ConfigView {
    ConfigView { conventional: on, ..cfg }
}

/// The structural checks that read only the header and the found emoji:
/// the emoji count rule and the no-period rule, in their running order.
pub open spec fn checks_before_grammar(pc: ParsedCommitView, cfg: ConfigView) -> Seq<
    SumiErrorView,
> {
    (if cfg.gitmoji {
        opt_err(spec_validate_gitmoji(pc.gitmoji))
    } else {
        seq![]
    }) + (if cfg.no_period {
        opt_err(spec_validate_no_period(pc.header))
    } else {
        seq![]
    })
}

/// The structural check that runs after the grammar rules: the header
/// pattern, which also reads only the header.
pub open spec fn checks_after_grammar(pc: ParsedCommitView, cfg: ConfigView) -> Seq<
    SumiErrorView,
> {
    if cfg.header_pattern.len() > 0 {
        opt_err(spec_validate_header_pattern(pc.header, cfg.header_pattern))
    } else {
        seq![]
    }
}

#[verifier::rlimit(60)]
proof fn lemma_parsed_errors_shape(pc: ParsedCommitView, cfg: ConfigView)
    requires
        cfg.description_case == crate::config::DescriptionCase::Any,
        !cfg.imperative,
    ensures
        spec_validate_parsed(pc, with_conventional(cfg, false)) =~= checks_before_grammar(
            pc,
            cfg,
        ) + checks_after_grammar(pc, cfg),
        spec_validate_parsed(pc, with_conventional(cfg, true)) =~= checks_before_grammar(pc, cfg)
            + opt_err(spec_validate_type_scope(pc, cfg.types_allowed, cfg.scopes_allowed))
            + checks_after_grammar(pc, cfg),
{
}

/// For a message that parses under the strict grammar, linting under the
/// permissive grammar never reports a failure that linting under the
/// strict grammar (all other rules held constant) does not also report:
/// the strict grammar runs a superset of the structural checks. The rules
/// that read the parsed description — the case rule and the imperative
/// rule — must be off, since the two grammars parse different
/// descriptions out of the same header.
/// The model the permissive grammar yields for the preprocessed message.
pub open spec fn p2_perm_model(raw: Seq<char>, cfg: ConfigView) -> ParsedCommitView {
    basic_parse(spec_preprocess(raw), cfg.gitmoji)->Ok_0
}

/// The model the strict grammar yields for the preprocessed message.
pub open spec fn p2_strict_model(raw: Seq<char>, cfg: ConfigView) -> ParsedCommitView {
    conventional_parse(spec_preprocess(raw), cfg.gitmoji)->Ok_0
}

/// The failures both grammars report alike: the raw-text checks and the
/// structural checks that read only the header and the found emoji.
pub open spec fn p2_core(raw: Seq<char>, cfg: ConfigView) -> Seq<SumiErrorView> {
    spec_validate_ws_len(spec_preprocess(raw), with_conventional(cfg, false))
        + checks_before_grammar(p2_perm_model(raw, cfg), cfg)
}

/// The extra check only the strict grammar runs: the type and scope
/// allow-lists, on the strict model.
pub open spec fn p2_mid(raw: Seq<char>, cfg: ConfigView) -> Seq<SumiErrorView> {
    opt_err(
        spec_validate_type_scope(
            p2_strict_model(raw, cfg),
            cfg.types_allowed,
            cfg.scopes_allowed,
        ),
    )
}

/// The shared check that runs after the grammar rules.
pub open spec fn p2_post(raw: Seq<char>, cfg: ConfigView) -> Seq<SumiErrorView> {
    checks_after_grammar(p2_perm_model(raw, cfg), cfg)
}

/// The premises of the grammar-comparison law: the message survives
/// preprocessing and emoji stripping, it parses under the strict grammar,
/// and the description-reading rules are off.
pub open spec fn p2_premises(raw: Seq<char>, cfg: ConfigView) -> bool {
    &&& spec_preprocess(raw).len() > 0
    &&& spec_strip(spec_preprocess(raw), cfg.gitmoji).1.len() > 0
    &&& conv_parse(spec_strip(spec_preprocess(raw), cfg.gitmoji).1) is Ok
    &&& cfg.description_case == crate::config::DescriptionCase::Any
    &&& !cfg.imperative
}

#[verifier::rlimit(100)]
#[verifier::spinoff_prover]
proof fn lemma_p2_perm_shape(raw: Seq<char>, cfg: ConfigView)
    requires
        p2_premises(raw, cfg),
    ensures
        outcome_errors(spec_run_lint(raw, with_conventional(cfg, false))) =~= p2_core(raw, cfg)
            + p2_post(raw, cfg),
{
    let m = spec_preprocess(raw);
    let cfg_b = with_conventional(cfg, false);
    assert(spec_strip(m, cfg_b.gitmoji) == spec_strip(m, cfg.gitmoji));
    let pb = p2_perm_model(raw, cfg);
    assert(basic_parse(m, cfg_b.gitmoji) is Ok);
    assert(spec_handle_parsing(m, cfg_b) == (
        Ok::<ParsedCommitView, SumiErrorView>(pb),
        Seq::<SumiErrorView>::empty(),
    ));
    lemma_parsed_errors_shape(pb, cfg);
    let eb = Seq::<SumiErrorView>::empty() + spec_validate_ws_len(m, cfg_b)
        + spec_validate_parsed(pb, cfg_b);
    assert(spec_run_lint(raw, cfg_b) == (if eb.len() == 0 {
        LintOutcome::Valid(pb)
    } else {
        LintOutcome::Invalid(eb)
    }));
    assert(eb =~= p2_core(raw, cfg) + p2_post(raw, cfg));
}

#[verifier::rlimit(100)]
#[verifier::spinoff_prover]
proof fn lemma_p2_models_share(raw: Seq<char>, cfg: ConfigView)
    requires
        p2_premises(raw, cfg),
    ensures
        p2_perm_model(raw, cfg).header == p2_strict_model(raw, cfg).header,
        p2_perm_model(raw, cfg).gitmoji == p2_strict_model(raw, cfg).gitmoji,
        basic_parse(spec_preprocess(raw), cfg.gitmoji) is Ok,
        conventional_parse(spec_preprocess(raw), cfg.gitmoji) is Ok,
{
    let m = spec_preprocess(raw);
    assert(basic_parse(m, cfg.gitmoji) is Ok);
    assert(conventional_parse(m, cfg.gitmoji) is Ok);
}

proof fn lemma_ws_len_same(m: Seq<char>, a: ConfigView, b: ConfigView)
    requires
        a.whitespace == b.whitespace,
        a.max_header_length == b.max_header_length,
        a.max_body_length == b.max_body_length,
    ensures
        spec_validate_ws_len(m, a) == spec_validate_ws_len(m, b),
{
}

#[verifier::rlimit(100)]
#[verifier::spinoff_prover]
proof fn lemma_p2_strict_shape(raw: Seq<char>, cfg: ConfigView)
    requires
        p2_premises(raw, cfg),
    ensures
        outcome_errors(spec_run_lint(raw, with_conventional(cfg, true))) =~= p2_core(raw, cfg)
            + p2_mid(raw, cfg) + p2_post(raw, cfg),
{
    let m = spec_preprocess(raw);
    let cfg_b = with_conventional(cfg, false);
    let cfg_s = with_conventional(cfg, true);
    assert(spec_strip(m, cfg_s.gitmoji) == spec_strip(m, cfg.gitmoji));
    let pb = p2_perm_model(raw, cfg);
    let ps = p2_strict_model(raw, cfg);
    lemma_p2_models_share(raw, cfg);
    assert(conventional_parse(m, cfg_s.gitmoji) is Ok);
    assert(spec_handle_parsing(m, cfg_s) == (
        Ok::<ParsedCommitView, SumiErrorView>(ps),
        Seq::<SumiErrorView>::empty(),
    ));
    lemma_parsed_errors_shape(ps, cfg);
    assert(checks_before_grammar(ps, cfg) == checks_before_grammar(pb, cfg));
    assert(checks_after_grammar(ps, cfg) == checks_after_grammar(pb, cfg));
    lemma_ws_len_same(m, cfg_s, cfg_b);
    let es = Seq::<SumiErrorView>::empty() + spec_validate_ws_len(m, cfg_s)
        + spec_validate_parsed(ps, cfg_s);
    assert(spec_run_lint(raw, cfg_s) == (if es.len() == 0 {
        LintOutcome::Valid(ps)
    } else {
        LintOutcome::Invalid(es)
    }));
    assert(es =~= p2_core(raw, cfg) + p2_mid(raw, cfg) + p2_post(raw, cfg));
}

/// For a message that parses under the strict grammar, linting under the
/// permissive grammar never reports a failure that linting under the
/// strict grammar (all other rules held constant) does not also report:
/// the strict grammar runs a superset of the structural checks. The rules
/// that read the parsed description — the case rule and the imperative
/// rule — must be off, since the two grammars parse different
/// descriptions out of the same header.
pub proof fn lemma_permissive_within_strict(raw: Seq<char>, cfg: ConfigView)
    requires
        p2_premises(raw, cfg),
    ensures
        forall|e: SumiErrorView|
            outcome_errors(spec_run_lint(raw, with_conventional(cfg, false))).contains(e)
                ==> outcome_errors(spec_run_lint(raw, with_conventional(cfg, true))).contains(e),
{
    lemma_p2_perm_shape(raw, cfg);
    lemma_p2_strict_shape(raw, cfg);
    let core = p2_core(raw, cfg);
    let mid = p2_mid(raw, cfg);
    let post = p2_post(raw, cfg);
    let ob = outcome_errors(spec_run_lint(raw, with_conventional(cfg, false)));
    let os = outcome_errors(spec_run_lint(raw, with_conventional(cfg, true)));
    assert forall|e: SumiErrorView| ob.contains(e) implies os.contains(e) by {
        let idx = choose|idx: int| 0 <= idx < ob.len() && ob[idx] == e;
        if idx < core.len() {
            assert(os[idx] == e);
        } else {
            assert(os[idx + mid.len()] == e);
        }
        assert(os.contains(e));
    }
}

} // verus!
