use frontend_analyzer::analyzer::FrontendAnalyzer;
use frontend_analyzer::report::AnalysisResult;
use frontend_analyzer::tree::{Directory, Entry, ProjectFile};

fn file(name: &str, content: &str) -> Entry {
    Entry::File(ProjectFile { name: name.to_string(), content: Some(content.to_string()) })
}

fn unreadable(name: &str) -> Entry {
    Entry::File(ProjectFile { name: name.to_string(), content: None })
}

fn dir(name: &str, entries: Vec<Entry>) -> Entry {
    Entry::Dir(Directory { name: name.to_string(), entries })
}

fn run(root: Vec<Entry>) -> Vec<AnalysisResult> {
    FrontendAnalyzer::new(root).analyze_all()
}

#[test]
fn eleven_reports_in_canonical_order() {
    let reports = run(vec![]);
    assert_eq!(reports.len(), 11);
    let names: Vec<&str> = reports.iter().map(|r| r.category.as_str()).collect();
    assert_eq!(
        names,
        vec![
            "UI screens",
            "Data storage",
            "API",
            "Authentication",
            "Session management",
            "Security",
            "State management",
            "Routing",
            "UI design system",
            "Error handling",
            "Performance",
        ]
    );
    for r in &reports {
        assert_eq!(r.status, "OK");
        assert!(r.errors.is_empty());
    }
}

#[test]
fn empty_project_all_counts_zero_and_warnings_present() {
    let reports = run(vec![dir("src", vec![]), dir("assets", vec![])]);
    assert_eq!(reports[0].details[0], "HTML files: 0");
    assert_eq!(reports[0].details[1], "component files: 0");
    assert_eq!(reports[0].details[2], "style files: 0 (CSS: 0, SCSS: 0)");
    assert_eq!(reports[1].details[0], "files using localStorage: 0");
    assert_eq!(reports[1].details[1], "files using sessionStorage: 0");
    assert_eq!(reports[1].details[2], "files using IndexedDB: 0");
    assert_eq!(reports[2].details[0], "files using an HTTP client: 0");
    assert_eq!(reports[2].details[1], "API endpoints detected: 0");
    assert_eq!(reports[2].details[2], "files with API error handling: 0");
    for (i, r) in reports.iter().enumerate() {
        if i == 8 {
            assert!(r.warnings.is_empty());
        } else {
            assert!(!r.warnings.is_empty(), "category {} should warn", r.category);
        }
    }
    assert_eq!(reports[9].details[1], "try-catch blocks: 0");
}

#[test]
fn excluded_directories_are_not_counted() {
    let reports = run(vec![
        dir("node_modules", vec![file("lib.ts", "localStorage")]),
        dir(".git", vec![file("hook.ts", "localStorage")]),
        dir(".cache", vec![dir("deep", vec![file("page.html", "<html>")])]),
        dir("src", vec![file("app.ts", "localStorage")]),
    ]);
    assert_eq!(reports[0].details[0], "HTML files: 0");
    assert_eq!(reports[1].details[0], "files using localStorage: 1");
}

#[test]
fn compound_suffix_counts_both_populations() {
    let reports = run(vec![
        file("home.component.ts", "localStorage"),
        file("util.ts", "localStorage"),
    ]);
    assert_eq!(reports[0].details[1], "component files: 1");
    assert_eq!(reports[1].details[0], "files using localStorage: 2");
}

#[test]
fn plain_suffix_is_not_in_compound_population() {
    let reports = run(vec![file("x.ts", "let a = 1;")]);
    assert_eq!(reports[0].details[1], "component files: 0");
}

#[test]
fn undotted_name_is_not_counted() {
    let reports = run(vec![file("ts", "localStorage")]);
    assert_eq!(reports[1].details[0], "files using localStorage: 0");
}

#[test]
fn analysis_is_idempotent() {
    let tree = vec![
        dir("src", vec![
            file("a.ts", "localStorage try { x() } catch(e) {}"),
            file("b.component.ts", "Subject login token"),
            file("style.css", "@media (max-width: 600px) { body {} }"),
        ]),
    ];
    let analyzer = FrontendAnalyzer::new(tree);
    let first = analyzer.analyze_all();
    let second = analyzer.analyze_all();
    assert_eq!(first, second);
}

#[test]
fn innerhtml_produces_risk_warning() {
    let reports = run(vec![file("danger.ts", "el.innerHTML = value; sanitize(value);")]);
    assert!(reports[5]
        .warnings
        .contains(&"innerHTML assignment was detected: XSS risk".to_string()));
}

#[test]
fn eval_produces_risk_warning() {
    let reports = run(vec![file("danger.ts", "eval(code)")]);
    assert!(reports[5]
        .warnings
        .contains(&"an eval() call was detected: security risk".to_string()));
}

#[test]
fn risk_warnings_follow_file_order() {
    let reports = run(vec![
        file("a.ts", "x.innerHTML = y; eval(z);"),
        file("b.ts", "eval(w)"),
    ]);
    let expected = vec![
        "innerHTML assignment was detected: XSS risk".to_string(),
        "an eval() call was detected: security risk".to_string(),
        "an eval() call was detected: security risk".to_string(),
        "input sanitization is not confirmed".to_string(),
    ];
    assert_eq!(reports[5].warnings, expected);
}

#[test]
fn presence_counts_are_file_scoped() {
    let reports = run(vec![file("twice.ts", "localStorage.get(); localStorage.set();")]);
    assert_eq!(reports[1].details[0], "files using localStorage: 1");
}

#[test]
fn occurrence_counts_are_occurrence_scoped() {
    let reports = run(vec![
        file("a.ts", "try { x() } finally {} try { y() }"),
        file("b.ts", "try  { z() }"),
    ]);
    assert_eq!(reports[9].details[1], "try-catch blocks: 3");
}

#[test]
fn api_end_to_end_scenario() {
    let reports = run(vec![
        file("client.ts", "const c = new HttpClient();"),
        file("handler.ts", "promise.catch(err => log(err));"),
    ]);
    let api = &reports[2];
    assert!(api.details.contains(&"files using an HTTP client: 1".to_string()));
    assert!(api.details.contains(&"API endpoints detected: 0".to_string()));
    assert!(api.details.contains(&"files with API error handling: 1".to_string()));
    assert!(api.warnings.is_empty());
}

#[test]
fn url_literals_are_counted_per_occurrence() {
    let reports = run(vec![file(
        "api.ts",
        "const a = \"https://example.com/one\"; const b = 'http://example.com/two';",
    )]);
    assert!(reports[2].details.contains(&"API endpoints detected: 2".to_string()));
}

#[test]
fn http_method_lines_come_before_counts() {
    let reports = run(vec![file("svc.ts", "http.get(url); http.post(url, body);")]);
    let api = &reports[2];
    assert_eq!(api.details[0], "HTTP GET method used");
    assert_eq!(api.details[1], "HTTP POST method used");
    assert_eq!(api.details[2], "files using an HTTP client: 1");
}

#[test]
fn media_query_marks_responsive_design() {
    let reports = run(vec![file("style.scss", "@media (min-width: 10em) { a {} }")]);
    assert!(reports[0]
        .details
        .contains(&"responsive design: implemented".to_string()));
    assert!(reports[0].warnings.is_empty());
}

#[test]
fn missing_media_query_warns() {
    let reports = run(vec![file("style.css", "body { color: red; }")]);
    assert_eq!(
        reports[0].warnings,
        vec!["responsive design is not confirmed".to_string()]
    );
}

#[test]
fn style_file_totals_split_css_and_scss() {
    let reports = run(vec![
        file("a.css", ""),
        file("b.scss", ""),
        file("c.scss", ""),
    ]);
    assert_eq!(reports[0].details[2], "style files: 3 (CSS: 1, SCSS: 2)");
}

#[test]
fn unreadable_files_contribute_no_evidence_but_are_counted() {
    let reports = run(vec![unreadable("ghost.html"), unreadable("ghost.ts")]);
    assert_eq!(reports[0].details[0], "HTML files: 1");
    assert_eq!(reports[1].details[0], "files using localStorage: 0");
}

#[test]
fn session_checks_require_same_file_conjunction() {
    let split = run(vec![
        file("a.ts", "logout()"),
        file("b.ts", "auto()"),
    ]);
    assert_eq!(split[4].details[1], "automatic logout: not confirmed");
    let joined = run(vec![file("c.ts", "auto logout")]);
    assert_eq!(joined[4].details[1], "automatic logout: implemented");
}

#[test]
fn rich_project_raises_no_warnings() {
    let reports = run(vec![
        file(
            "app.ts",
            "AuthService login token timeout RouterModule loadChildren @ngrx ErrorHandler \
             sanitize localStorage HttpClient catch( auto logout password required",
        ),
        file("style.css", "@media (max-width: 5px) {}"),
    ]);
    for r in &reports {
        assert!(r.warnings.is_empty(), "category {} warned", r.category);
    }
}

#[test]
fn find_files_walks_in_entry_order() {
    let analyzer = FrontendAnalyzer::new(vec![
        dir("src", vec![file("b.ts", ""), dir("sub", vec![file("c.ts", "")])]),
        file("a.ts", ""),
    ]);
    let found = analyzer.find_files_with_extension("ts");
    let names: Vec<&str> = found.iter().map(|f| f.name.as_str()).collect();
    assert_eq!(names, vec!["b.ts", "c.ts", "a.ts"]);
}

#[test]
fn responsive_scan_looks_at_both_populations() {
    let analyzer = FrontendAnalyzer::new(vec![]);
    let css = vec![ProjectFile {
        name: "a.css".to_string(),
        content: Some("body {}".to_string()),
    }];
    let scss = vec![ProjectFile {
        name: "b.scss".to_string(),
        content: Some("@media (print) {}".to_string()),
    }];
    assert!(analyzer.check_responsive_design(&css, &scss));
    assert!(!analyzer.check_responsive_design(&css, &vec![]));
}

#[test]
fn dot_prefixed_files_are_still_counted() {
    // Exclusion applies to directories; a file may start with a dot.
    let reports = run(vec![file(".ts", "localStorage")]);
    assert_eq!(reports[1].details[0], "files using localStorage: 1");
}

#[test]
fn authentication_details_and_warnings() {
    let reports = run(vec![file("login.ts", "password must be required on Login")]);
    assert_eq!(reports[3].details[0], "authentication service: not confirmed");
    assert_eq!(reports[3].details[1], "login capability: implemented");
    assert_eq!(reports[3].details[3], "password validation: implemented");
    assert_eq!(
        reports[3].warnings,
        vec!["an authentication service is not confirmed".to_string()]
    );
}

#[test]
fn design_system_never_warns() {
    let reports = run(vec![file("plain.css", "body {}")]);
    assert_eq!(reports[8].details[0], "design tokens: not confirmed");
    assert!(reports[8].warnings.is_empty());
}

#[test]
fn state_management_warning_ignores_services() {
    let reports = run(vec![file("svc.ts", "@Injectable class A {}")]);
    assert_eq!(reports[6].details[2], "service implementation: confirmed");
    assert_eq!(
        reports[6].warnings,
        vec!["no state management library or pattern is confirmed".to_string()]
    );
}

#[test]
fn performance_details_cover_all_four_checks() {
    let reports = run(vec![file(
        "perf.ts",
        "loadChildren OnPush cdk-virtual-scroll ServiceWorker",
    )]);
    assert_eq!(reports[10].details[0], "lazy loading: implemented");
    assert_eq!(reports[10].details[1], "change detection tuning: implemented");
    assert_eq!(reports[10].details[2], "virtual scrolling: implemented");
    assert_eq!(reports[10].details[3], "service worker: implemented");
    assert!(reports[10].warnings.is_empty());
}

#[test]
fn routing_warns_without_configuration() {
    let reports = run(vec![file("guard.ts", "CanActivate")]);
    assert_eq!(reports[7].details[1], "route guards: implemented");
    assert_eq!(
        reports[7].warnings,
        vec!["a routing configuration is not confirmed".to_string()]
    );
}
