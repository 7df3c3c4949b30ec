//! The eleven category evaluations and their orchestrator.
//!
//! Every evaluation is a pure function of the file populations drawn from
//! the project tree; the spec functions here state each report in full —
//! category name, status, every detail line, every warning — and the
//! executable methods are proved to return exactly that.

use vstd::prelude::*;
use vstd::string::StringExecFns;
use crate::checks::{
    any_file_with, any_file_with_both, any_file_with_either_of, count_files_with,
    count_files_with_either, count_matching, count_matching_either, count_occurrences,
    exec_file_has, file_has, occ_total, some_file_has, some_file_has_both,
    some_file_has_with_either,
};
use crate::numfmt::{
    add_clamped, append_decimal, clamped, count_line, dec_seq, make_count_line, make_status_line,
    status_line,
};
use crate::regexes::{regex_found, regex_pattern_ok, regex_search};
use crate::report::{AnalysisResult, ReportView};
use crate::tree::{collect_entries, collect_files, Entry, ProjectFile};

verus! {

/// The pattern that shapes a media query.
pub open spec fn media_pattern() -> Seq<char> {
    "@media\\s*\\([^)]*\\)"@
}

/// The pattern that extracts a quoted URL literal.
pub open spec fn url_pattern() -> Seq<char> {
    "[\"'](https?://[^\"']+)[\"']"@
}

/// The pattern that opens a try block.
pub open spec fn try_pattern() -> Seq<char> {
    "try\\s*\\{"@
}

/// A readable file in which the media-query pattern matches.
pub open spec fn media_found_in(f: ProjectFile) -> bool {
    f.content matches Some(c) && regex_pattern_ok(media_pattern()) && regex_found(
        media_pattern(),
        c@,
    )
}

/// Some style file of either population shows a media query.
pub open spec fn spec_responsive(css: Seq<ProjectFile>, scss: Seq<ProjectFile>) -> bool {
    ||| exists|i: int| 0 <= i < css.len() && media_found_in(css[i])
    ||| exists|i: int| 0 <= i < scss.len() && media_found_in(scss[i])
}

/// The third detail line of the screens category.
pub open spec fn style_files_line(css: nat, scss: nat) -> Seq<char> {
    "style files: "@ + dec_seq(clamped(css + scss)) + " (CSS: "@ + dec_seq(css) + ", SCSS: "@
        + dec_seq(scss) + ")"@
}

/// The screens report: population sizes and the responsive-design check.
pub open spec fn ui_screens_report(
    html: Seq<ProjectFile>,
    comps: Seq<ProjectFile>,
    css: Seq<ProjectFile>,
    scss: Seq<ProjectFile>,
) -> ReportView {
    let responsive = spec_responsive(css, scss);
    ReportView {
        category: "UI screens"@,
        status: "OK"@,
        details: seq![
            count_line("HTML files: "@, html.len()),
            count_line("component files: "@, comps.len()),
            style_files_line(css.len(), scss.len()),
        ] + (if responsive {
            seq!["responsive design: implemented"@]
        } else {
            Seq::<Seq<char>>::empty()
        }),
        warnings: if responsive {
            Seq::<Seq<char>>::empty()
        } else {
            seq!["responsive design is not confirmed"@]
        },
        errors: Seq::<Seq<char>>::empty(),
    }
}

/// The storage report: how many files touch each client-side store.
pub open spec fn storage_report(ts: Seq<ProjectFile>) -> ReportView {
    let local = count_matching(ts, "localStorage"@);
    let session = count_matching(ts, "sessionStorage"@);
    let idb = count_matching_either(ts, "indexedDB"@, "IndexedDB"@);
    ReportView {
        category: "Data storage"@,
        status: "OK"@,
        details: seq![
            count_line("files using localStorage: "@, local),
            count_line("files using sessionStorage: "@, session),
            count_line("files using IndexedDB: "@, idb),
        ],
        warnings: if local == 0 && session == 0 && idb == 0 {
            seq!["no client-side data storage is confirmed"@]
        } else {
            Seq::<Seq<char>>::empty()
        },
        errors: Seq::<Seq<char>>::empty(),
    }
}

/// The HTTP verb probed at position `k` of the fixed method list.
pub open spec fn method_pat(k: int) -> Seq<char> {
    if k == 0 {
        ".get("@
    } else if k == 1 {
        ".post("@
    } else if k == 2 {
        ".put("@
    } else if k == 3 {
        ".delete("@
    } else {
        ".patch("@
    }
}

/// The detail line emitted when the verb at position `k` is seen.
pub open spec fn method_line(k: int) -> Seq<char> {
    if k == 0 {
        "HTTP GET method used"@
    } else if k == 1 {
        "HTTP POST method used"@
    } else if k == 2 {
        "HTTP PUT method used"@
    } else if k == 3 {
        "HTTP DELETE method used"@
    } else {
        "HTTP PATCH method used"@
    }
}

/// The verb lines that one file contributes, over the first `k` verbs.
pub open spec fn file_method_lines(f: ProjectFile, k: int) -> Seq<Seq<char>>
    decreases k,
{
    if k <= 0 {
        Seq::<Seq<char>>::empty()
    } else {
        file_method_lines(f, k - 1) + (if file_has(f, method_pat(k - 1)) {
            seq![method_line(k - 1)]
        } else {
            Seq::<Seq<char>>::empty()
        })
    }
}

/// The verb lines over the whole population, in file order.
pub open spec fn api_method_lines(files: Seq<ProjectFile>) -> Seq<Seq<char>>
    decreases files,
{
    if files.len() == 0 {
        Seq::<Seq<char>>::empty()
    } else {
        api_method_lines(files.drop_last()) + file_method_lines(files.last(), 5)
    }
}

/// The API report: verb lines, then the three evidence counts.
pub open spec fn api_report(ts: Seq<ProjectFile>) -> ReportView {
    let clients = count_matching_either(ts, "HttpClient"@, "http."@);
    let endpoints = clamped(occ_total(ts, url_pattern()));
    let errs = count_matching_either(ts, "catchError"@, "catch("@);
    ReportView {
        category: "API"@,
        status: "OK"@,
        details: api_method_lines(ts) + seq![
            count_line("files using an HTTP client: "@, clients),
            count_line("API endpoints detected: "@, endpoints),
            count_line("files with API error handling: "@, errs),
        ],
        warnings: (if clients == 0 {
            seq!["HTTP communication is not confirmed"@]
        } else {
            Seq::<Seq<char>>::empty()
        }) + (if errs == 0 {
            seq!["API error handling is not confirmed"@]
        } else {
            Seq::<Seq<char>>::empty()
        }),
        errors: Seq::<Seq<char>>::empty(),
    }
}

/// The authentication report: four presence checks.
pub open spec fn auth_report(ts: Seq<ProjectFile>) -> ReportView {
    let auth = some_file_has(ts, "AuthService"@) || some_file_has(ts, "auth.service"@);
    let login = some_file_has(ts, "login"@) || some_file_has(ts, "Login"@);
    let jwt = some_file_has(ts, "jwt"@) || some_file_has(ts, "JWT"@) || some_file_has(
        ts,
        "token"@,
    );
    let pw = some_file_has_with_either(ts, "password"@, "validate"@, "required"@);
    ReportView {
        category: "Authentication"@,
        status: "OK"@,
        details: seq![
            status_line("authentication service: "@, auth, "implemented"@, "not confirmed"@),
            status_line("login capability: "@, login, "implemented"@, "not confirmed"@),
            status_line("JWT or token auth: "@, jwt, "implemented"@, "not confirmed"@),
            status_line("password validation: "@, pw, "implemented"@, "not confirmed"@),
        ],
        warnings: (if auth {
            Seq::<Seq<char>>::empty()
        } else {
            seq!["an authentication service is not confirmed"@]
        }) + (if login {
            Seq::<Seq<char>>::empty()
        } else {
            seq!["a login capability is not confirmed"@]
        }),
        errors: Seq::<Seq<char>>::empty(),
    }
}

/// The session report: timeout, automatic logout, session storage.
pub open spec fn session_report(ts: Seq<ProjectFile>) -> ReportView {
    let timeout = some_file_has(ts, "timeout"@) || some_file_has(ts, "expire"@);
    let auto = some_file_has_both(ts, "logout"@, "auto"@);
    let ss = some_file_has(ts, "sessionStorage"@);
    ReportView {
        category: "Session management"@,
        status: "OK"@,
        details: seq![
            status_line("session timeout: "@, timeout, "implemented"@, "not confirmed"@),
            status_line("automatic logout: "@, auto, "implemented"@, "not confirmed"@),
            status_line("sessionStorage usage: "@, ss, "confirmed"@, "not confirmed"@),
        ],
        warnings: if timeout {
            Seq::<Seq<char>>::empty()
        } else {
            seq!["a session timeout is not confirmed"@]
        },
        errors: Seq::<Seq<char>>::empty(),
    }
}

/// The risk warnings that one file contributes.
pub open spec fn file_danger_warnings(f: ProjectFile) -> Seq<Seq<char>> {
    (if file_has(f, "innerHTML"@) {
        seq!["innerHTML assignment was detected: XSS risk"@]
    } else {
        Seq::<Seq<char>>::empty()
    }) + (if file_has(f, "eval("@) {
        seq!["an eval() call was detected: security risk"@]
    } else {
        Seq::<Seq<char>>::empty()
    })
}

/// The risk warnings over the whole population, in file order.
pub open spec fn danger_warnings(files: Seq<ProjectFile>) -> Seq<Seq<char>>
    decreases files,
{
    if files.len() == 0 {
        Seq::<Seq<char>>::empty()
    } else {
        danger_warnings(files.drop_last()) + file_danger_warnings(files.last())
    }
}

/// The security report: three presence checks and the risk warnings.
pub open spec fn security_report(ts: Seq<ProjectFile>) -> ReportView {
    let sanitization = some_file_has(ts, "sanitize"@) || some_file_has(ts, "DomSanitizer"@);
    let csrf = some_file_has(ts, "csrf"@) || some_file_has(ts, "CSRF"@);
    let https = some_file_has_both(ts, "https"@, "redirect"@);
    ReportView {
        category: "Security"@,
        status: "OK"@,
        details: seq![
            status_line("input sanitization: "@, sanitization, "implemented"@, "not confirmed"@),
            status_line("CSRF protection: "@, csrf, "implemented"@, "not confirmed"@),
            status_line("HTTPS enforcement: "@, https, "implemented"@, "not confirmed"@),
        ],
        warnings: danger_warnings(ts) + (if sanitization {
            Seq::<Seq<char>>::empty()
        } else {
            seq!["input sanitization is not confirmed"@]
        }),
        errors: Seq::<Seq<char>>::empty(),
    }
}

/// The state-management report: four presence checks.
pub open spec fn state_report(ts: Seq<ProjectFile>) -> ReportView {
    let ngrx = some_file_has(ts, "@ngrx"@) || some_file_has(ts, "NgRx"@);
    let akita = some_file_has(ts, "akita"@) || some_file_has(ts, "Akita"@);
    let service = some_file_has(ts, "@Injectable"@);
    let subject = some_file_has(ts, "Subject"@) || some_file_has(ts, "BehaviorSubject"@);
    ReportView {
        category: "State management"@,
        status: "OK"@,
        details: seq![
            status_line("NgRx usage: "@, ngrx, "confirmed"@, "not confirmed"@),
            status_line("Akita usage: "@, akita, "confirmed"@, "not confirmed"@),
            status_line("service implementation: "@, service, "confirmed"@, "not confirmed"@),
            status_line("Subject usage: "@, subject, "confirmed"@, "not confirmed"@),
        ],
        warnings: if !ngrx && !akita && !subject {
            seq!["no state management library or pattern is confirmed"@]
        } else {
            Seq::<Seq<char>>::empty()
        },
        errors: Seq::<Seq<char>>::empty(),
    }
}

/// The routing report: configuration, guards, lazy loading.
pub open spec fn routing_report(ts: Seq<ProjectFile>) -> ReportView {
    let routing = some_file_has(ts, "RouterModule"@) || some_file_has(ts, "Routes"@);
    let guards = some_file_has(ts, "CanActivate"@) || some_file_has(ts, "Guard"@);
    let lazy = some_file_has(ts, "loadChildren"@);
    ReportView {
        category: "Routing"@,
        status: "OK"@,
        details: seq![
            status_line("routing configuration: "@, routing, "implemented"@, "not confirmed"@),
            status_line("route guards: "@, guards, "implemented"@, "not confirmed"@),
            status_line("lazy loading: "@, lazy, "implemented"@, "not confirmed"@),
        ],
        warnings: if routing {
            Seq::<Seq<char>>::empty()
        } else {
            seq!["a routing configuration is not confirmed"@]
        },
        errors: Seq::<Seq<char>>::empty(),
    }
}

/// The design-system report over both style populations.
pub open spec fn design_report(scss: Seq<ProjectFile>, css: Seq<ProjectFile>) -> ReportView {
    let tokens = some_file_has(scss, "$primary"@) || some_file_has(css, "$primary"@)
        || some_file_has(scss, "--primary"@) || some_file_has(css, "--primary"@);
    let mixins = some_file_has(scss, "@mixin"@) || some_file_has(css, "@mixin"@)
        || some_file_has(scss, "@include"@) || some_file_has(css, "@include"@);
    let theme = some_file_has(scss, "theme"@) || some_file_has(css, "theme"@) || some_file_has(
        scss,
        "dark"@,
    ) || some_file_has(css, "dark"@);
    ReportView {
        category: "UI design system"@,
        status: "OK"@,
        details: seq![
            status_line("design tokens: "@, tokens, "implemented"@, "not confirmed"@),
            status_line("component library: "@, mixins, "implemented"@, "not confirmed"@),
            status_line("theme support: "@, theme, "implemented"@, "not confirmed"@),
        ],
        warnings: Seq::<Seq<char>>::empty(),
        errors: Seq::<Seq<char>>::empty(),
    }
}

/// The error-handling report: handler, try blocks, interceptor.
pub open spec fn error_report(ts: Seq<ProjectFile>) -> ReportView {
    let global = some_file_has(ts, "ErrorHandler"@);
    let tries = clamped(occ_total(ts, try_pattern()));
    let interceptor = some_file_has_both(ts, "HttpInterceptor"@, "error"@);
    ReportView {
        category: "Error handling"@,
        status: "OK"@,
        details: seq![
            status_line("global error handler: "@, global, "implemented"@, "not confirmed"@),
            count_line("try-catch blocks: "@, tries),
            status_line("error interceptor: "@, interceptor, "implemented"@, "not confirmed"@),
        ],
        warnings: if global {
            Seq::<Seq<char>>::empty()
        } else {
            seq!["a global error handler is not confirmed"@]
        },
        errors: Seq::<Seq<char>>::empty(),
    }
}

/// The performance report: four presence checks.
pub open spec fn performance_report(ts: Seq<ProjectFile>) -> ReportView {
    let lazy = some_file_has(ts, "loadChildren"@);
    let cd = some_file_has(ts, "OnPush"@) || some_file_has(ts, "ChangeDetectionStrategy"@);
    let vs = some_file_has(ts, "cdk-virtual-scroll"@) || some_file_has(
        ts,
        "VirtualScrollStrategy"@,
    );
    let sw = some_file_has(ts, "ServiceWorker"@);
    ReportView {
        category: "Performance"@,
        status: "OK"@,
        details: seq![
            status_line("lazy loading: "@, lazy, "implemented"@, "not confirmed"@),
            status_line("change detection tuning: "@, cd, "implemented"@, "not confirmed"@),
            status_line("virtual scrolling: "@, vs, "implemented"@, "not confirmed"@),
            status_line("service worker: "@, sw, "implemented"@, "not confirmed"@),
        ],
        warnings: if lazy {
            Seq::<Seq<char>>::empty()
        } else {
            seq!["lazy loading is not confirmed"@]
        },
        errors: Seq::<Seq<char>>::empty(),
    }
}

/// The whole analysis as one value: the eleven reports in canonical order.
pub open spec fn spec_analyze_all(root: Seq<Entry>) -> Seq<ReportView> {
    seq![
        ui_screens_report(
            collect_entries(root, "html"@),
            collect_entries(root, "component.ts"@),
            collect_entries(root, "css"@),
            collect_entries(root, "scss"@),
        ),
        storage_report(collect_entries(root, "ts"@)),
        api_report(collect_entries(root, "ts"@)),
        auth_report(collect_entries(root, "ts"@)),
        session_report(collect_entries(root, "ts"@)),
        security_report(collect_entries(root, "ts"@)),
        state_report(collect_entries(root, "ts"@)),
        routing_report(collect_entries(root, "ts"@)),
        design_report(collect_entries(root, "scss"@), collect_entries(root, "css"@)),
        error_report(collect_entries(root, "ts"@)),
        performance_report(collect_entries(root, "ts"@)),
    ]
}

proof fn lemma_method_lines_snoc(s: Seq<ProjectFile>, i: int)
    requires
        0 <= i < s.len(),
    ensures
        api_method_lines(s.subrange(0, i + 1)) == api_method_lines(s.subrange(0, i))
            + file_method_lines(s[i], 5),
{
    let t = s.subrange(0, i + 1);
    assert(t.drop_last() =~~= s.subrange(0, i));
    assert(t.last() == s[i]);
}

proof fn lemma_danger_snoc(s: Seq<ProjectFile>, i: int)
    requires
        0 <= i < s.len(),
    ensures
        danger_warnings(s.subrange(0, i + 1)) == danger_warnings(s.subrange(0, i))
            + file_danger_warnings(s[i]),
{
    let t = s.subrange(0, i + 1);
    assert(t.drop_last() =~~= s.subrange(0, i));
    assert(t.last() == s[i]);
}

fn push_method_lines(details: &mut Vec<String>, f: &ProjectFile)
    ensures
        final(details).deep_view() == old(details).deep_view() + file_method_lines(*f, 5),
{
    let mut k: usize = 0;
    while k < 5
        invariant
            k <= 5,
            details.deep_view() == old(details).deep_view() + file_method_lines(*f, k as int),
        decreases 5 - k,
    {
        let pat: &str = match k {
            0 => ".get(",
            1 => ".post(",
            2 => ".put(",
            3 => ".delete(",
            _ => ".patch(",
        };
        let line: &str = match k {
            0 => "HTTP GET method used",
            1 => "HTTP POST method used",
            2 => "HTTP PUT method used",
            3 => "HTTP DELETE method used",
            _ => "HTTP PATCH method used",
        };
        proof {
            assert(pat@ == method_pat(k as int));
            assert(line@ == method_line(k as int));
        }
        let ghost pre = details.deep_view();
        let ghost prev = details@;
        if exec_file_has(f, pat) {
            details.push(line.to_owned());
            proof {
                assert(file_has(*f, method_pat(k as int)));
                assert(details@ == prev.push(details@[prev.len() as int]));
                assert(details@[prev.len() as int]@ == method_line(k as int));
                assert(details.deep_view() =~~= pre.push(method_line(k as int)));
                assert(file_method_lines(*f, k as int + 1) == file_method_lines(*f, k as int)
                    + seq![method_line(k as int)]);
                assert(details.deep_view() =~~= old(details).deep_view() + file_method_lines(
                    *f,
                    k as int + 1,
                ));
            }
        } else {
            proof {
                assert(!file_has(*f, method_pat(k as int)));
                assert(file_method_lines(*f, k as int + 1) == file_method_lines(*f, k as int)
                    + Seq::<Seq<char>>::empty());
                assert(details.deep_view() =~~= old(details).deep_view() + file_method_lines(
                    *f,
                    k as int + 1,
                ));
            }
        }
        k = k + 1;
    }
}

fn scan_media(files: &Vec<ProjectFile>) -> (b: bool)
    ensures
        b == exists|i: int| 0 <= i < files@.len() && media_found_in(files@[i]),
{
    let n = files.len();
    let mut i: usize = 0;
    while i < n
        invariant
            n == files@.len(),
            i <= n,
            forall|j: int| 0 <= j < i ==> !media_found_in(files@[j]),
        decreases n - i,
    {
        match &files[i].content {
            Some(c) => {
                match regex_search("@media\\s*\\([^)]*\\)", c.as_str()) {
                    Some(found) => {
                        if found {
                            proof {
                                assert(media_found_in(files@[i as int]));
                            }
                            return true;
                        }
                    },
                    None => {
                    },
                }
            },
            None => {
            },
        }
        i = i + 1;
    }
    false
}

/// The analyzer: the project tree as it was read in, entry order preserved.
pub struct FrontendAnalyzer {
    pub root: Vec<Entry>,
}

impl FrontendAnalyzer {
    /// Wraps an already-read project tree for analysis.
    pub fn new(root: Vec<Entry>) -> (a: FrontendAnalyzer)
        ensures
            a.root == root,
    {
        FrontendAnalyzer { root }
    }

    /// Every file under the root whose name ends with the dotted extension,
    /// in walk order; excluded directories contribute nothing.
    pub fn find_files_with_extension(&self, extension: &str) -> (r: Vec<ProjectFile>)
        ensures
            r@ == collect_entries(self.root@, extension@),
    {
        collect_files(&self.root, extension)
    }

    /// The early-exit scan for a media query across both style populations.
    pub fn check_responsive_design(
        &self,
        css_files: &Vec<ProjectFile>,
        scss_files: &Vec<ProjectFile>,
    ) -> (b: bool)
        ensures
            b == spec_responsive(css_files@, scss_files@),
    {
        if scan_media(css_files) {
            return true;
        }
        scan_media(scss_files)
    }

    /// Builds the screens report.
    pub fn analyze_ui_screens(&self) -> (r: AnalysisResult)
        ensures
            r@ == ui_screens_report(
                collect_entries(self.root@, "html"@),
                collect_entries(self.root@, "component.ts"@),
                collect_entries(self.root@, "css"@),
                collect_entries(self.root@, "scss"@),
            ),
    {
        let html_files = self.find_files_with_extension("html");
        let component_files = self.find_files_with_extension("component.ts");
        let css_files = self.find_files_with_extension("css");
        let scss_files = self.find_files_with_extension("scss");
        let mut details: Vec<String> = Vec::new();
        details.push(make_count_line("HTML files: ", html_files.len()));
        details.push(make_count_line("component files: ", component_files.len()));
        let mut style = "style files: ".to_owned();
        append_decimal(&mut style, add_clamped(css_files.len(), scss_files.len()));
        style.append(" (CSS: ");
        append_decimal(&mut style, css_files.len());
        style.append(", SCSS: ");
        append_decimal(&mut style, scss_files.len());
        style.append(")");
        proof {
            assert(style@ == style_files_line(css_files@.len(), scss_files@.len()));
        }
        details.push(style);
        let mut warnings: Vec<String> = Vec::new();
        let responsive = self.check_responsive_design(&css_files, &scss_files);
        if responsive {
            details.push("responsive design: implemented".to_owned());
        } else {
            warnings.push("responsive design is not confirmed".to_owned());
        }
        let r = AnalysisResult {
            category: "UI screens".to_owned(),
            status: "OK".to_owned(),
            details,
            warnings,
            errors: Vec::new(),
        };
        proof {
            let m = ui_screens_report(
                collect_entries(self.root@, "html"@),
                collect_entries(self.root@, "component.ts"@),
                collect_entries(self.root@, "css"@),
                collect_entries(self.root@, "scss"@),
            );
            assert(r@.details =~~= m.details);
            assert(r@.warnings =~~= m.warnings);
            assert(r@.errors =~~= m.errors);
        }
        r
    }

    /// Builds the storage report.
    pub fn analyze_data_storage(&self) -> (r: AnalysisResult)
        ensures
            r@ == storage_report(collect_entries(self.root@, "ts"@)),
    {
        let ts_files = self.find_files_with_extension("ts");
        let local = count_files_with(&ts_files, "localStorage");
        let session = count_files_with(&ts_files, "sessionStorage");
        let idb = count_files_with_either(&ts_files, "indexedDB", "IndexedDB");
        let mut details: Vec<String> = Vec::new();
        details.push(make_count_line("files using localStorage: ", local));
        details.push(make_count_line("files using sessionStorage: ", session));
        details.push(make_count_line("files using IndexedDB: ", idb));
        let mut warnings: Vec<String> = Vec::new();
        if local == 0 && session == 0 && idb == 0 {
            warnings.push("no client-side data storage is confirmed".to_owned());
        }
        let r = AnalysisResult {
            category: "Data storage".to_owned(),
            status: "OK".to_owned(),
            details,
            warnings,
            errors: Vec::new(),
        };
        proof {
            let m = storage_report(collect_entries(self.root@, "ts"@));
            assert(r@.details =~~= m.details);
            assert(r@.warnings =~~= m.warnings);
            assert(r@.errors =~~= m.errors);
        }
        r
    }

    /// Builds the API report.
    pub fn analyze_api(&self) -> (r: AnalysisResult)
        ensures
            r@ == api_report(collect_entries(self.root@, "ts"@)),
    {
        let ts_files = self.find_files_with_extension("ts");
        let mut details: Vec<String> = Vec::new();
        let n = ts_files.len();
        let mut i: usize = 0;
        while i < n
            invariant
                n == ts_files@.len(),
                i <= n,
                details.deep_view() == api_method_lines(ts_files@.subrange(0, i as int)),
            decreases n - i,
        {
            push_method_lines(&mut details, &ts_files[i]);
            proof {
                lemma_method_lines_snoc(ts_files@, i as int);
                assert(details.deep_view() =~~= api_method_lines(
                    ts_files@.subrange(0, i + 1 as int),
                ));
            }
            i = i + 1;
        }
        proof {
            assert(ts_files@.subrange(0, n as int) =~~= ts_files@);
        }
        let clients = count_files_with_either(&ts_files, "HttpClient", "http.");
        let endpoints = count_occurrences(&ts_files, "[\"'](https?://[^\"']+)[\"']");
        let errs = count_files_with_either(&ts_files, "catchError", "catch(");
        details.push(make_count_line("files using an HTTP client: ", clients));
        details.push(make_count_line("API endpoints detected: ", endpoints));
        details.push(make_count_line("files with API error handling: ", errs));
        let mut warnings: Vec<String> = Vec::new();
        if clients == 0 {
            warnings.push("HTTP communication is not confirmed".to_owned());
        }
        if errs == 0 {
            warnings.push("API error handling is not confirmed".to_owned());
        }
        let r = AnalysisResult {
            category: "API".to_owned(),
            status: "OK".to_owned(),
            details,
            warnings,
            errors: Vec::new(),
        };
        proof {
            let m = api_report(collect_entries(self.root@, "ts"@));
            assert(r@.details =~~= m.details);
            assert(r@.warnings =~~= m.warnings);
            assert(r@.errors =~~= m.errors);
        }
        r
    }

    /// Builds the authentication report.
    pub fn analyze_authentication(&self) -> (r: AnalysisResult)
        ensures
            r@ == auth_report(collect_entries(self.root@, "ts"@)),
    {
        let ts_files = self.find_files_with_extension("ts");
        let auth = any_file_with(&ts_files, "AuthService") || any_file_with(
            &ts_files,
            "auth.service",
        );
        let login = any_file_with(&ts_files, "login") || any_file_with(&ts_files, "Login");
        let jwt = any_file_with(&ts_files, "jwt") || any_file_with(&ts_files, "JWT")
            || any_file_with(&ts_files, "token");
        let pw = any_file_with_either_of(&ts_files, "password", "validate", "required");
        let mut details: Vec<String> = Vec::new();
        details.push(
            make_status_line("authentication service: ", auth, "implemented", "not confirmed"),
        );
        details.push(make_status_line("login capability: ", login, "implemented", "not confirmed"));
        details.push(make_status_line("JWT or token auth: ", jwt, "implemented", "not confirmed"));
        details.push(make_status_line("password validation: ", pw, "implemented", "not confirmed"));
        let mut warnings: Vec<String> = Vec::new();
        if !auth {
            warnings.push("an authentication service is not confirmed".to_owned());
        }
        if !login {
            warnings.push("a login capability is not confirmed".to_owned());
        }
        let r = AnalysisResult {
            category: "Authentication".to_owned(),
            status: "OK".to_owned(),
            details,
            warnings,
            errors: Vec::new(),
        };
        proof {
            let m = auth_report(collect_entries(self.root@, "ts"@));
            assert(r@.details =~~= m.details);
            assert(r@.warnings =~~= m.warnings);
            assert(r@.errors =~~= m.errors);
        }
        r
    }

    /// Builds the session report.
    pub fn analyze_session_management(&self) -> (r: AnalysisResult)
        ensures
            r@ == session_report(collect_entries(self.root@, "ts"@)),
    {
        let ts_files = self.find_files_with_extension("ts");
        let timeout = any_file_with(&ts_files, "timeout") || any_file_with(&ts_files, "expire");
        let auto = any_file_with_both(&ts_files, "logout", "auto");
        let ss = any_file_with(&ts_files, "sessionStorage");
        let mut details: Vec<String> = Vec::new();
        details.push(make_status_line("session timeout: ", timeout, "implemented", "not confirmed"));
        details.push(make_status_line("automatic logout: ", auto, "implemented", "not confirmed"));
        details.push(make_status_line("sessionStorage usage: ", ss, "confirmed", "not confirmed"));
        let mut warnings: Vec<String> = Vec::new();
        if !timeout {
            warnings.push("a session timeout is not confirmed".to_owned());
        }
        let r = AnalysisResult {
            category: "Session management".to_owned(),
            status: "OK".to_owned(),
            details,
            warnings,
            errors: Vec::new(),
        };
        proof {
            let m = session_report(collect_entries(self.root@, "ts"@));
            assert(r@.details =~~= m.details);
            assert(r@.warnings =~~= m.warnings);
            assert(r@.errors =~~= m.errors);
        }
        r
    }

    /// Builds the security report.
    pub fn analyze_security(&self) -> (r: AnalysisResult)
        ensures
            r@ == security_report(collect_entries(self.root@, "ts"@)),
    {
        let ts_files = self.find_files_with_extension("ts");
        let sanitization = any_file_with(&ts_files, "sanitize") || any_file_with(
            &ts_files,
            "DomSanitizer",
        );
        let csrf = any_file_with(&ts_files, "csrf") || any_file_with(&ts_files, "CSRF");
        let https = any_file_with_both(&ts_files, "https", "redirect");
        let mut details: Vec<String> = Vec::new();
        details.push(
            make_status_line("input sanitization: ", sanitization, "implemented", "not confirmed"),
        );
        details.push(make_status_line("CSRF protection: ", csrf, "implemented", "not confirmed"));
        details.push(make_status_line("HTTPS enforcement: ", https, "implemented", "not confirmed"));
        let mut warnings: Vec<String> = Vec::new();
        let n = ts_files.len();
        let mut i: usize = 0;
        while i < n
            invariant
                n == ts_files@.len(),
                i <= n,
                warnings.deep_view() == danger_warnings(ts_files@.subrange(0, i as int)),
            decreases n - i,
        {
            if exec_file_has(&ts_files[i], "innerHTML") {
                warnings.push("innerHTML assignment was detected: XSS risk".to_owned());
            }
            if exec_file_has(&ts_files[i], "eval(") {
                warnings.push("an eval() call was detected: security risk".to_owned());
            }
            proof {
                lemma_danger_snoc(ts_files@, i as int);
                assert(warnings.deep_view() =~~= danger_warnings(
                    ts_files@.subrange(0, i + 1 as int),
                ));
            }
            i = i + 1;
        }
        proof {
            assert(ts_files@.subrange(0, n as int) =~~= ts_files@);
        }
        if !sanitization {
            warnings.push("input sanitization is not confirmed".to_owned());
        }
        let r = AnalysisResult {
            category: "Security".to_owned(),
            status: "OK".to_owned(),
            details,
            warnings,
            errors: Vec::new(),
        };
        proof {
            let m = security_report(collect_entries(self.root@, "ts"@));
            assert(r@.details =~~= m.details);
            assert(r@.warnings =~~= m.warnings);
            assert(r@.errors =~~= m.errors);
        }
        r
    }

    /// Builds the state-management report.
    pub fn analyze_state_management(&self) -> (r: AnalysisResult)
        ensures
            r@ == state_report(collect_entries(self.root@, "ts"@)),
    {
        let ts_files = self.find_files_with_extension("ts");
        let ngrx = any_file_with(&ts_files, "@ngrx") || any_file_with(&ts_files, "NgRx");
        let akita = any_file_with(&ts_files, "akita") || any_file_with(&ts_files, "Akita");
        let service = any_file_with(&ts_files, "@Injectable");
        let subject = any_file_with(&ts_files, "Subject") || any_file_with(
            &ts_files,
            "BehaviorSubject",
        );
        let mut details: Vec<String> = Vec::new();
        details.push(make_status_line("NgRx usage: ", ngrx, "confirmed", "not confirmed"));
        details.push(make_status_line("Akita usage: ", akita, "confirmed", "not confirmed"));
        details.push(
            make_status_line("service implementation: ", service, "confirmed", "not confirmed"),
        );
        details.push(make_status_line("Subject usage: ", subject, "confirmed", "not confirmed"));
        let mut warnings: Vec<String> = Vec::new();
        if !ngrx && !akita && !subject {
            warnings.push("no state management library or pattern is confirmed".to_owned());
        }
        let r = AnalysisResult {
            category: "State management".to_owned(),
            status: "OK".to_owned(),
            details,
            warnings,
            errors: Vec::new(),
        };
        proof {
            let m = state_report(collect_entries(self.root@, "ts"@));
            assert(r@.details =~~= m.details);
            assert(r@.warnings =~~= m.warnings);
            assert(r@.errors =~~= m.errors);
        }
        r
    }

    /// Builds the routing report.
    pub fn analyze_routing(&self) -> (r: AnalysisResult)
        ensures
            r@ == routing_report(collect_entries(self.root@, "ts"@)),
    {
        let ts_files = self.find_files_with_extension("ts");
        let routing = any_file_with(&ts_files, "RouterModule") || any_file_with(
            &ts_files,
            "Routes",
        );
        let guards = any_file_with(&ts_files, "CanActivate") || any_file_with(&ts_files, "Guard");
        let lazy = any_file_with(&ts_files, "loadChildren");
        let mut details: Vec<String> = Vec::new();
        details.push(
            make_status_line("routing configuration: ", routing, "implemented", "not confirmed"),
        );
        details.push(make_status_line("route guards: ", guards, "implemented", "not confirmed"));
        details.push(make_status_line("lazy loading: ", lazy, "implemented", "not confirmed"));
        let mut warnings: Vec<String> = Vec::new();
        if !routing {
            warnings.push("a routing configuration is not confirmed".to_owned());
        }
        let r = AnalysisResult {
            category: "Routing".to_owned(),
            status: "OK".to_owned(),
            details,
            warnings,
            errors: Vec::new(),
        };
        proof {
            let m = routing_report(collect_entries(self.root@, "ts"@));
            assert(r@.details =~~= m.details);
            assert(r@.warnings =~~= m.warnings);
            assert(r@.errors =~~= m.errors);
        }
        r
    }

    /// Builds the design-system report.
    pub fn analyze_ui_design_system(&self) -> (r: AnalysisResult)
        ensures
            r@ == design_report(
                collect_entries(self.root@, "scss"@),
                collect_entries(self.root@, "css"@),
            ),
    {
        let scss_files = self.find_files_with_extension("scss");
        let css_files = self.find_files_with_extension("css");
        let tokens = any_file_with(&scss_files, "$primary") || any_file_with(
            &css_files,
            "$primary",
        ) || any_file_with(&scss_files, "--primary") || any_file_with(&css_files, "--primary");
        let mixins = any_file_with(&scss_files, "@mixin") || any_file_with(&css_files, "@mixin")
            || any_file_with(&scss_files, "@include") || any_file_with(&css_files, "@include");
        let theme = any_file_with(&scss_files, "theme") || any_file_with(&css_files, "theme")
            || any_file_with(&scss_files, "dark") || any_file_with(&css_files, "dark");
        let mut details: Vec<String> = Vec::new();
        details.push(make_status_line("design tokens: ", tokens, "implemented", "not confirmed"));
        details.push(
            make_status_line("component library: ", mixins, "implemented", "not confirmed"),
        );
        details.push(make_status_line("theme support: ", theme, "implemented", "not confirmed"));
        let r = AnalysisResult {
            category: "UI design system".to_owned(),
            status: "OK".to_owned(),
            details,
            warnings: Vec::new(),
            errors: Vec::new(),
        };
        proof {
            let m = design_report(
                collect_entries(self.root@, "scss"@),
                collect_entries(self.root@, "css"@),
            );
            assert(r@.details =~~= m.details);
            assert(r@.warnings =~~= m.warnings);
            assert(r@.errors =~~= m.errors);
        }
        r
    }

    /// Builds the error-handling report.
    pub fn analyze_error_handling(&self) -> (r: AnalysisResult)
        ensures
            r@ == error_report(collect_entries(self.root@, "ts"@)),
    {
        let ts_files = self.find_files_with_extension("ts");
        let global = any_file_with(&ts_files, "ErrorHandler");
        let tries = count_occurrences(&ts_files, "try\\s*\\{");
        let interceptor = any_file_with_both(&ts_files, "HttpInterceptor", "error");
        let mut details: Vec<String> = Vec::new();
        details.push(
            make_status_line("global error handler: ", global, "implemented", "not confirmed"),
        );
        details.push(make_count_line("try-catch blocks: ", tries));
        details.push(
            make_status_line("error interceptor: ", interceptor, "implemented", "not confirmed"),
        );
        let mut warnings: Vec<String> = Vec::new();
        if !global {
            warnings.push("a global error handler is not confirmed".to_owned());
        }
        let r = AnalysisResult {
            category: "Error handling".to_owned(),
            status: "OK".to_owned(),
            details,
            warnings,
            errors: Vec::new(),
        };
        proof {
            let m = error_report(collect_entries(self.root@, "ts"@));
            assert(r@.details =~~= m.details);
            assert(r@.warnings =~~= m.warnings);
            assert(r@.errors =~~= m.errors);
        }
        r
    }

    /// Builds the performance report.
    pub fn analyze_performance(&self) -> (r: AnalysisResult)
        ensures
            r@ == performance_report(collect_entries(self.root@, "ts"@)),
    {
        let ts_files = self.find_files_with_extension("ts");
        let lazy = any_file_with(&ts_files, "loadChildren");
        let cd = any_file_with(&ts_files, "OnPush") || any_file_with(
            &ts_files,
            "ChangeDetectionStrategy",
        );
        let vs = any_file_with(&ts_files, "cdk-virtual-scroll") || any_file_with(
            &ts_files,
            "VirtualScrollStrategy",
        );
        let sw = any_file_with(&ts_files, "ServiceWorker");
        let mut details: Vec<String> = Vec::new();
        details.push(make_status_line("lazy loading: ", lazy, "implemented", "not confirmed"));
        details.push(
            make_status_line("change detection tuning: ", cd, "implemented", "not confirmed"),
        );
        details.push(make_status_line("virtual scrolling: ", vs, "implemented", "not confirmed"));
        details.push(make_status_line("service worker: ", sw, "implemented", "not confirmed"));
        let mut warnings: Vec<String> = Vec::new();
        if !lazy {
            warnings.push("lazy loading is not confirmed".to_owned());
        }
        let r = AnalysisResult {
            category: "Performance".to_owned(),
            status: "OK".to_owned(),
            details,
            warnings,
            errors: Vec::new(),
        };
        proof {
            let m = performance_report(collect_entries(self.root@, "ts"@));
            assert(r@.details =~~= m.details);
            assert(r@.warnings =~~= m.warnings);
            assert(r@.errors =~~= m.errors);
        }
        r
    }

    /// Runs every category in canonical order and returns the eleven
    /// reports; the order is part of the external contract.
    pub fn analyze_all(&self) -> (r: Vec<AnalysisResult>)
        ensures
            r.deep_view() == spec_analyze_all(self.root@),
            r@.len() == 11,
    {
        let mut results: Vec<AnalysisResult> = Vec::new();
        results.push(self.analyze_ui_screens());
        results.push(self.analyze_data_storage());
        results.push(self.analyze_api());
        results.push(self.analyze_authentication());
        results.push(self.analyze_session_management());
        results.push(self.analyze_security());
        results.push(self.analyze_state_management());
        results.push(self.analyze_routing());
        results.push(self.analyze_ui_design_system());
        results.push(self.analyze_error_handling());
        results.push(self.analyze_performance());
        proof {
            assert(results.deep_view() =~~= spec_analyze_all(self.root@));
        }
        results
    }
}

} // verus!
