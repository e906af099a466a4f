use wrangler::error::ConfigurationError;
use wrangler::settings::Builder;
use wrangler::settings::ScriptFormat;
use wrangler::upload::filter::build_ignore;
use wrangler::upload::filter::select_modules;
use wrangler::upload::filter::UploadFilter;
use wrangler::upload::filter::Verdict;
use wrangler::upload::filter::WalkEntry;

fn config(included: Option<&[&str]>, excluded: Option<&[&str]>) -> Builder {
    Builder {
        command: None,
        watch_dir: "src".to_string(),
        upload_dir: "dist".to_string(),
        upload_format: ScriptFormat::Modules,
        upload_include: included.map(|p| p.iter().map(|s| s.to_string()).collect()),
        upload_exclude: excluded.map(|p| p.iter().map(|s| s.to_string()).collect()),
    }
}

fn filter(included: Option<&[&str]>, excluded: Option<&[&str]>) -> UploadFilter {
    match build_ignore(&config(included, excluded), "/project") {
        Ok(filter) => filter,
        Err(e) => panic!("no filter: {:?}", e),
    }
}

fn dir(path: &str, depth: usize) -> WalkEntry {
    WalkEntry { path: path.to_string(), depth, is_dir: true, is_file: false }
}

fn file(path: &str, depth: usize) -> WalkEntry {
    WalkEntry { path: path.to_string(), depth, is_dir: false, is_file: true }
}

#[test]
fn without_patterns_nothing_is_matched() {
    let all = filter(None, None);
    assert_eq!(all.matched("index.js", false), Verdict::Unmatched);
    assert_eq!(all.matched("node_modules", true), Verdict::Unmatched);
    assert!(all.admits("index.js", false));
    assert!(all.admits("README.md", false));
    assert!(all.admits(".hidden", false));
    assert!(all.admits("node_modules", true));
}

#[test]
fn include_patterns_admit_what_they_match_and_no_other_file() {
    let only_js = filter(Some(&["*.js"]), None);
    assert_eq!(only_js.matched("index.js", false), Verdict::Whitelisted);
    assert_eq!(only_js.matched("README.md", false), Verdict::Ignored);
    assert_eq!(only_js.matched("lib", true), Verdict::Unmatched);
    assert!(only_js.admits("index.js", false));
    assert!(only_js.admits("lib/util.js", false));
    assert!(!only_js.admits("README.md", false));
    assert!(only_js.admits("lib", true));
}

#[test]
fn exclude_patterns_leave_out_what_they_match() {
    let no_md = filter(None, Some(&["*.md"]));
    assert_eq!(no_md.matched("README.md", false), Verdict::Ignored);
    assert_eq!(no_md.matched("index.js", false), Verdict::Unmatched);
    assert!(no_md.admits("index.js", false));
    assert!(!no_md.admits("README.md", false));
    assert!(!no_md.admits("docs/guide.md", false));
}

#[test]
fn include_overrides_exclude() {
    let both = filter(Some(&["*.js"]), Some(&["*.js"]));
    assert!(both.admits("index.js", false));
    assert!(both.admits("dist/util.js", false));
    assert!(!both.admits("README.md", false));
    let only_include = filter(Some(&["*.js"]), None);
    for (path, is_dir) in
        [("index.js", false), ("README.md", false), ("lib", true), ("lib/a.js", false), ("a.jsx", false)]
    {
        assert_eq!(both.matched(path, is_dir), only_include.matched(path, is_dir), "{}", path);
    }
}

#[test]
fn include_overrides_exclude_even_where_the_exclude_patterns_are_invalid() {
    assert!(build_ignore(&config(Some(&["*.js"]), Some(&["["])), "/project").is_ok());
}

#[test]
fn empty_include_list_admits_no_file() {
    let none = filter(Some(&[]), Some(&["*.md"]));
    assert_eq!(none.matched("index.js", false), Verdict::Ignored);
    assert_eq!(none.matched("README.md", false), Verdict::Ignored);
    assert_eq!(none.matched("lib", true), Verdict::Unmatched);
    assert!(!none.admits("index.js", false));
    assert!(!none.admits("README.md", false));
    assert!(none.admits("lib", true));
    let walk = vec![
        dir("dist", 0),
        file("dist/index.js", 1),
        file("dist/README.md", 1),
        dir("dist/lib", 1),
        file("dist/lib/util.js", 2),
    ];
    assert_eq!(select_modules(&none, &walk), Vec::<usize>::new());
}

#[test]
fn include_list_of_comments_and_blank_lines_admits_no_file() {
    let none = filter(Some(&["# only a comment", "", "   "]), None);
    assert!(!none.admits("index.js", false));
    assert!(none.admits("lib", true));
    let walk = vec![dir("dist", 0), file("dist/index.js", 1)];
    assert_eq!(select_modules(&none, &walk), Vec::<usize>::new());
}

#[test]
fn empty_exclude_list_leaves_nothing_out() {
    let all = filter(None, Some(&[]));
    assert_eq!(all.matched("index.js", false), Verdict::Unmatched);
    assert!(all.admits("index.js", false));
    assert!(all.admits("README.md", false));
}

#[test]
fn filter_is_built_where_every_pattern_is_valid() {
    assert!(build_ignore(&config(None, None), "/project").is_ok());
    assert!(build_ignore(&config(Some(&["*.js", "lib/**"]), None), "/project").is_ok());
    assert!(build_ignore(&config(None, Some(&["*.md", "node_modules"])), "/project").is_ok());
    assert!(build_ignore(&config(Some(&[]), Some(&[])), "/project").is_ok());
}

#[test]
fn later_include_patterns_take_precedence() {
    let most_js = filter(Some(&["*.js", "!*.test.js"]), None);
    assert!(most_js.admits("index.js", false));
    assert!(!most_js.admits("index.test.js", false));
}

#[test]
fn invalid_include_pattern_is_named() {
    let result = build_ignore(&config(Some(&["*.js", "[", "{"]), None), "/project");
    match result {
        Err(e) => {
            assert_eq!(e, ConfigurationError::InvalidPattern { pattern: "[".to_string() });
            assert_eq!(e.message(), "invalid pattern [");
        }
        Ok(_) => panic!("an unclosed class is no valid pattern"),
    }
}

#[test]
fn invalid_exclude_pattern_is_named_as_configured() {
    let result = build_ignore(&config(None, Some(&["*.md", "a[b"])), "/project");
    match result {
        Err(e) => assert_eq!(e, ConfigurationError::InvalidPattern { pattern: "a[b".to_string() }),
        Ok(_) => panic!("an unclosed class is no valid pattern"),
    }
}

#[test]
fn paths_are_matched_relative_to_the_directory() {
    let rooted = match build_ignore(&config(Some(&["/index.js"]), None), "/project") {
        Ok(filter) => filter,
        Err(e) => panic!("no filter: {:?}", e),
    };
    assert!(rooted.admits("/project/index.js", false));
    assert!(!rooted.admits("/project/lib/index.js", false));
}

#[test]
fn unfiltered_walk_takes_every_regular_file() {
    let all = filter(None, None);
    let walk = vec![
        dir("dist", 0),
        file("dist/index.js", 1),
        file("dist/util.js", 1),
        file("dist/README.md", 1),
    ];
    assert_eq!(select_modules(&all, &walk), vec![1, 2, 3]);
}

#[test]
fn walk_leaves_out_directories_and_other_entries() {
    let all = filter(None, None);
    let walk = vec![
        dir("dist", 0),
        dir("dist/lib", 1),
        file("dist/lib/a.js", 2),
        WalkEntry { path: "dist/socket".to_string(), depth: 1, is_dir: false, is_file: false },
        file("dist/.hidden", 1),
    ];
    assert_eq!(select_modules(&all, &walk), vec![2, 4]);
}

#[test]
fn walk_of_nothing_selects_nothing() {
    let all = filter(None, None);
    assert_eq!(select_modules(&all, &vec![]), Vec::<usize>::new());
    assert_eq!(select_modules(&all, &vec![dir("dist", 0)]), Vec::<usize>::new());
}

#[test]
fn walk_does_not_go_below_an_excluded_directory() {
    let no_deps = filter(None, Some(&["node_modules"]));
    assert!(no_deps.admits("dist/node_modules/dep.js", false));
    let walk = vec![
        dir("dist", 0),
        file("dist/index.js", 1),
        dir("dist/node_modules", 1),
        file("dist/node_modules/dep.js", 2),
        dir("dist/node_modules/pkg", 2),
        file("dist/node_modules/pkg/main.js", 3),
        file("dist/util.js", 1),
        dir("dist/lib", 1),
        file("dist/lib/helper.js", 2),
    ];
    assert_eq!(select_modules(&no_deps, &walk), vec![1, 6, 8]);
}

#[test]
fn walk_goes_on_after_a_nested_excluded_directory() {
    let no_tmp = filter(None, Some(&["tmp"]));
    let walk = vec![
        dir("dist", 0),
        dir("dist/a", 1),
        dir("dist/a/tmp", 2),
        file("dist/a/tmp/x.js", 3),
        file("dist/a/keep.js", 2),
        dir("dist/tmp", 1),
        dir("dist/tmp/deep", 2),
        file("dist/tmp/deep/y.js", 3),
        file("dist/z.js", 1),
    ];
    assert_eq!(select_modules(&no_tmp, &walk), vec![4, 8]);
}

#[test]
fn walk_with_include_patterns_goes_through_unmatched_directories() {
    let only_js = filter(Some(&["*.js"]), None);
    let walk = vec![
        dir("dist", 0),
        file("dist/index.js", 1),
        file("dist/README.md", 1),
        dir("dist/lib", 1),
        file("dist/lib/util.js", 2),
        file("dist/lib/notes.txt", 2),
    ];
    assert_eq!(select_modules(&only_js, &walk), vec![1, 4]);
}

#[test]
fn walk_with_both_lists_applies_include_alone() {
    let both = filter(Some(&["*.js"]), Some(&["*.js"]));
    let walk = vec![dir("dist", 0), file("dist/index.js", 1), file("dist/util.js", 1), file("dist/README.md", 1)];
    assert_eq!(select_modules(&both, &walk), vec![1, 2]);
}

#[test]
fn walk_never_passes_over_its_starting_point() {
    let no_dist = filter(None, Some(&["dist"]));
    assert!(!no_dist.admits("dist", true));
    let walk = vec![dir("dist", 0), file("dist/index.js", 1)];
    assert_eq!(select_modules(&no_dist, &walk), vec![1]);
}
