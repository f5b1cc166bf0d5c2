//! Guessing a blueprint's language and build system from the files it contains.

use crate::text::{chars_of, contains, has_substring, is_text, lowercase, str_is, to_lowercase};
use vstd::prelude::*;

verus! {

/// The detected language or framework and build system.
#[derive(Debug, Clone, PartialEq, Eq)]
pub struct ProjectInfo {
    /// The language or framework, e.g. `Rust`, `Go`, `Node.js`.
    pub project_type: String,
    /// The build system or package manager, e.g. `Cargo`, `npm/yarn`.
    pub build_system: String,
}

impl View for ProjectInfo {
    type V = (Seq<char>, Seq<char>);

    open spec fn view(&self) -> (Seq<char>, Seq<char>) {
        (self.project_type@, self.build_system@)
    }
}

impl Default for ProjectInfo {
    /// `Unknown` type and build system.
    fn default() -> (r: ProjectInfo)
        ensures
            r@ == ("Unknown"@, "Unknown"@),
    {
        ProjectInfo { project_type: "Unknown".to_string(), build_system: "Unknown".to_string() }
    }
}

/// One entry of a blueprint directory, in the order the directory was read.
pub struct ListingEntry {
    /// The entry's file name.
    pub name: String,
    /// Whether the entry exists when followed (a broken link does not).
    pub exists: bool,
}

/// What detection reads of a blueprint directory: its entries (not recursive) and the
/// text of its `package.json`, when that file could be read.
pub struct ProjectListing {
    pub entries: Vec<ListingEntry>,
    pub package_json: Option<String>,
}

/// The views of a listing's entries.
pub open spec fn entry_views(es: Seq<ListingEntry>) -> Seq<(Seq<char>, bool)> {
    es.map_values(|e: ListingEntry| (e.name@, e.exists))
}

/// Whether an existing entry named `name` is in the listing.
pub open spec fn has_file(es: Seq<(Seq<char>, bool)>, name: Seq<char>) -> bool {
    exists|i: int| 0 <= i < es.len() && (#[trigger] es[i]).0 == name && es[i].1
}

/// The project kind that `package.json` text points to.
pub open spec fn js_type(lc: Seq<char>) -> Seq<char> {
    if contains(lc, "\"react\""@) || contains(lc, "\"vue\""@) || contains(lc, "\"angular\""@)
        || contains(lc, "\"svelte\""@) {
        "Frontend JavaScript/TypeScript"@
    } else if contains(lc, "\"typescript\""@) {
        "TypeScript"@
    } else {
        "Node.js"@
    }
}

/// The build tool that `package.json` text points to.
pub open spec fn js_build(lc: Seq<char>) -> Seq<char> {
    if contains(lc, "\"webpack\""@) {
        "Webpack"@
    } else if contains(lc, "\"vite\""@) {
        "Vite"@
    } else if contains(lc, "\"parcel\""@) {
        "Parcel"@
    } else if contains(lc, "\"rollup\""@) {
        "Rollup"@
    } else if contains(lc, "\"esbuild\""@) {
        "esbuild"@
    } else {
        "npm/yarn"@
    }
}

/// The detection result for a JavaScript project with the given `package.json` text.
pub open spec fn js_info(package_json: Option<Seq<char>>) -> (Seq<char>, Seq<char>) {
    match package_json {
        Some(c) => (js_type(lowercase(c)), js_build(lowercase(c))),
        None => ("Node.js"@, "npm/yarn"@),
    }
}

/// Index of the last `.` in `s`, or -1.
pub open spec fn last_dot(s: Seq<char>) -> int
    decreases s.len(),
{
    if s.len() == 0 {
        -1
    } else if s.last() == '.' {
        s.len() - 1
    } else {
        last_dot(s.drop_last())
    }
}

/// The extension of a file name, as `Path::extension` gives it: the text after the last
/// `.`, except for names without a `.`, names whose only `.` leads, and `..`.
pub open spec fn file_extension(name: Seq<char>) -> Option<Seq<char>> {
    let i = last_dot(name);
    if i <= 0 || name == ".."@ {
        None
    } else {
        Some(name.skip(i + 1))
    }
}

/// The language a source file extension belongs to.
pub open spec fn extension_language(ext: Seq<char>) -> Option<Seq<char>> {
    if ext == "rs"@ {
        Some("Rust"@)
    } else if ext == "go"@ {
        Some("Go"@)
    } else if ext == "py"@ {
        Some("Python"@)
    } else if ext == "js"@ || ext == "mjs"@ || ext == "cjs"@ {
        Some("JavaScript"@)
    } else if ext == "ts"@ || ext == "tsx"@ {
        Some("TypeScript"@)
    } else if ext == "java"@ {
        Some("Java"@)
    } else if ext == "kt"@ || ext == "kts"@ {
        Some("Kotlin"@)
    } else if ext == "c"@ || ext == "h"@ {
        Some("C"@)
    } else if ext == "cpp"@ || ext == "hpp"@ || ext == "cxx"@ || ext == "hxx"@ {
        Some("C++"@)
    } else if ext == "rb"@ {
        Some("Ruby"@)
    } else if ext == "php"@ {
        Some("PHP"@)
    } else {
        None
    }
}

/// The language of a file name, by its extension.
pub open spec fn name_language(name: Seq<char>) -> Option<Seq<char>> {
    match file_extension(name) {
        Some(ext) => extension_language(ext),
        None => None,
    }
}

/// The language of the first entry, from index `i` on, with a known source extension.
pub open spec fn language_by_extension(es: Seq<(Seq<char>, bool)>, i: int) -> Option<Seq<char>>
    decreases es.len() - i,
{
    if i < 0 || i >= es.len() {
        None
    } else if name_language(es[i].0) is Some {
        name_language(es[i].0)
    } else {
        language_by_extension(es, i + 1)
    }
}

/// The detected project kind: the first marker file found, in the order Rust, Go,
/// JavaScript, CMake, Maven/Gradle, Python, PHP, Ruby; else a language by the first known
/// source file extension; else `Unknown`.
pub open spec fn detect(es: Seq<(Seq<char>, bool)>, package_json: Option<Seq<char>>) -> (Seq<char>, Seq<char>) {
    if has_file(es, "Cargo.toml"@) {
        ("Rust"@, "Cargo"@)
    } else if has_file(es, "go.mod"@) {
        ("Go"@, "Go Modules"@)
    } else if has_file(es, "package.json"@) {
        js_info(package_json)
    } else if has_file(es, "CMakeLists.txt"@) {
        ("C/C++"@, "CMake"@)
    } else if has_file(es, "pom.xml"@) {
        ("Java"@, "Maven"@)
    } else if has_file(es, "build.gradle"@) || has_file(es, "build.gradle.kts"@) {
        ("Java/Kotlin"@, "Gradle"@)
    } else if has_file(es, "pyproject.toml"@) {
        ("Python"@, "pyproject/pip"@)
    } else if has_file(es, "setup.py"@) || has_file(es, "setup.cfg"@) {
        ("Python"@, "setuptools/pip"@)
    } else if has_file(es, "requirements.txt"@) {
        ("Python"@, "pip"@)
    } else if has_file(es, "composer.json"@) {
        ("PHP"@, "Composer"@)
    } else if has_file(es, "Gemfile"@) {
        ("Ruby"@, "Bundler"@)
    } else {
        match language_by_extension(es, 0) {
            Some(lang) => (lang, "Unknown (by extension)"@),
            None => ("Unknown"@, "Unknown"@),
        }
    }
}

/// Whether an existing entry named `name` is in the listing.
fn path_exists(listing: &ProjectListing, name: &str) -> (r: bool)
    ensures
        r == has_file(entry_views(listing.entries@), name@),
{
    let ghost es = entry_views(listing.entries@);
    let mut i: usize = 0;
    while i < listing.entries.len()
        invariant
            i <= listing.entries.len(),
            es == entry_views(listing.entries@),
            forall|j: int| 0 <= j < i ==> !((#[trigger] es[j]).0 == name@ && es[j].1),
        decreases listing.entries.len() - i,
    {
        let e = &listing.entries[i];
        assert(es[i as int] == (e.name@, e.exists));
        if e.exists && str_is(e.name.as_str(), name) {
            return true;
        }
        i = i + 1;
    }
    false
}

fn info(t: &str, b: &str) -> (r: ProjectInfo)
    ensures
        r@ == (t@, b@),
{
    ProjectInfo { project_type: t.to_string(), build_system: b.to_string() }
}

/// The detection result for a project with `package.json`.
fn check_javascript(package_json: &Option<String>) -> (r: ProjectInfo)
    ensures
        r@ == js_info(match package_json { Some(c) => Some(c@), None => None }),
{
    match package_json {
        None => info("Node.js", "npm/yarn"),
        Some(content) => {
            let lc = to_lowercase(content.as_str());
            let c = chars_of(lc.as_str());
            let t = if has_substring(&c, "\"react\"") || has_substring(&c, "\"vue\"")
                || has_substring(&c, "\"angular\"") || has_substring(&c, "\"svelte\"") {
                "Frontend JavaScript/TypeScript"
            } else if has_substring(&c, "\"typescript\"") {
                "TypeScript"
            } else {
                "Node.js"
            };
            let b = if has_substring(&c, "\"webpack\"") {
                "Webpack"
            } else if has_substring(&c, "\"vite\"") {
                "Vite"
            } else if has_substring(&c, "\"parcel\"") {
                "Parcel"
            } else if has_substring(&c, "\"rollup\"") {
                "Rollup"
            } else if has_substring(&c, "\"esbuild\"") {
                "esbuild"
            } else {
                "npm/yarn"
            };
            info(t, b)
        },
    }
}

/// The extension of a file name.
fn extension_of(name: &Vec<char>) -> (r: Option<Vec<char>>)
    ensures
        match r {
            Some(e) => file_extension(name@) == Some(e@),
            None => file_extension(name@) is None,
        },
{
    let mut i = name.len();
    assert(name@.take(name@.len() as int) == name@);
    while i > 0 && name[i - 1] != '.'
        invariant
            i <= name.len(),
            last_dot(name@) == last_dot(name@.take(i as int)),
        decreases i,
    {
        assert(name@.take(i as int).drop_last() == name@.take(i - 1));
        i = i - 1;
    }
    proof {
        if i > 0 {
            assert(last_dot(name@.take(i as int)) == i - 1);
        } else {
            assert(last_dot(name@.take(0)) == -1);
        }
    }
    if i <= 1 || crate::text::is_text(name, "..") {
        return None;
    }
    let mut ext: Vec<char> = Vec::new();
    let mut k = i;
    while k < name.len()
        invariant
            i <= k <= name.len(),
            ext@ == name@.subrange(i as int, k as int),
        decreases name.len() - k,
    {
        ext.push(name[k]);
        assert(name@.subrange(i as int, k + 1) == name@.subrange(i as int, k as int).push(name@[k as int]));
        k = k + 1;
    }
    Some(ext)
}

/// The language of a source file extension.
fn language_of_extension(ext: &Vec<char>) -> (r: Option<&'static str>)
    ensures
        match r {
            Some(l) => extension_language(ext@) == Some(l@),
            None => extension_language(ext@) is None,
        },
{
    if is_text(ext, "rs") {
        Some("Rust")
    } else if is_text(ext, "go") {
        Some("Go")
    } else if is_text(ext, "py") {
        Some("Python")
    } else if is_text(ext, "js") || is_text(ext, "mjs") || is_text(ext, "cjs") {
        Some("JavaScript")
    } else if is_text(ext, "ts") || is_text(ext, "tsx") {
        Some("TypeScript")
    } else if is_text(ext, "java") {
        Some("Java")
    } else if is_text(ext, "kt") || is_text(ext, "kts") {
        Some("Kotlin")
    } else if is_text(ext, "c") || is_text(ext, "h") {
        Some("C")
    } else if is_text(ext, "cpp") || is_text(ext, "hpp") || is_text(ext, "cxx") || is_text(ext, "hxx") {
        Some("C++")
    } else if is_text(ext, "rb") {
        Some("Ruby")
    } else if is_text(ext, "php") {
        Some("PHP")
    } else {
        None
    }
}

/// The language of the first entry with a known source file extension.
fn check_extensions(listing: &ProjectListing) -> (r: Option<&'static str>)
    ensures
        match r {
            Some(l) => language_by_extension(entry_views(listing.entries@), 0) == Some(l@),
            None => language_by_extension(entry_views(listing.entries@), 0) is None,
        },
{
    let ghost es = entry_views(listing.entries@);
    let mut i: usize = 0;
    while i < listing.entries.len()
        invariant
            i <= listing.entries.len(),
            es == entry_views(listing.entries@),
            language_by_extension(es, 0) == language_by_extension(es, i as int),
        decreases listing.entries.len() - i,
    {
        let e = &listing.entries[i];
        assert(es[i as int] == (e.name@, e.exists));
        let name = chars_of(e.name.as_str());
        match extension_of(&name) {
            Some(ext) => match language_of_extension(&ext) {
                Some(l) => {
                    return Some(l);
                },
                None => {},
            },
            None => {},
        }
        i = i + 1;
    }
    None
}

/// Whether the listing has `Cargo.toml`.
fn check_rust(listing: &ProjectListing) -> (r: bool)
    ensures
        r == has_file(entry_views(listing.entries@), "Cargo.toml"@),
{
    path_exists(listing, "Cargo.toml")
}

/// Whether the listing has `go.mod`.
fn check_go(listing: &ProjectListing) -> (r: bool)
    ensures
        r == has_file(entry_views(listing.entries@), "go.mod"@),
{
    path_exists(listing, "go.mod")
}

/// Whether the listing has `CMakeLists.txt`.
fn check_cmake(listing: &ProjectListing) -> (r: bool)
    ensures
        r == has_file(entry_views(listing.entries@), "CMakeLists.txt"@),
{
    path_exists(listing, "CMakeLists.txt")
}

/// Whether the listing has `composer.json`.
fn check_php(listing: &ProjectListing) -> (r: bool)
    ensures
        r == has_file(entry_views(listing.entries@), "composer.json"@),
{
    path_exists(listing, "composer.json")
}

/// Whether the listing has `Gemfile`.
fn check_ruby(listing: &ProjectListing) -> (r: bool)
    ensures
        r == has_file(entry_views(listing.entries@), "Gemfile"@),
{
    path_exists(listing, "Gemfile")
}

/// Maven (`pom.xml`) or Gradle (`build.gradle`, `build.gradle.kts`) projects.
fn check_java_kotlin(listing: &ProjectListing) -> (r: Option<ProjectInfo>)
    ensures
        match r {
            Some(i) => {
                let es = entry_views(listing.entries@);
                if has_file(es, "pom.xml"@) {
                    i@ == ("Java"@, "Maven"@)
                } else {
                    (has_file(es, "build.gradle"@) || has_file(es, "build.gradle.kts"@))
                        && i@ == ("Java/Kotlin"@, "Gradle"@)
                }
            },
            None => !has_file(entry_views(listing.entries@), "pom.xml"@) && !has_file(
                entry_views(listing.entries@),
                "build.gradle"@,
            ) && !has_file(entry_views(listing.entries@), "build.gradle.kts"@),
        },
{
    if path_exists(listing, "pom.xml") {
        Some(info("Java", "Maven"))
    } else if path_exists(listing, "build.gradle") || path_exists(listing, "build.gradle.kts") {
        Some(info("Java/Kotlin", "Gradle"))
    } else {
        None
    }
}

/// Python projects, with the build system their marker files point to.
fn check_python(listing: &ProjectListing) -> (r: Option<ProjectInfo>)
    ensures
        ({
            let es = entry_views(listing.entries@);
            let any = has_file(es, "pyproject.toml"@) || has_file(es, "requirements.txt"@)
                || has_file(es, "setup.py"@) || has_file(es, "setup.cfg"@);
            match r {
                Some(i) => any && i@ == ("Python"@, if has_file(es, "pyproject.toml"@) {
                    "pyproject/pip"@
                } else if has_file(es, "setup.py"@) || has_file(es, "setup.cfg"@) {
                    "setuptools/pip"@
                } else {
                    "pip"@
                }),
                None => !any,
            }
        }),
{
    let has_pyproject = path_exists(listing, "pyproject.toml");
    let has_requirements = path_exists(listing, "requirements.txt");
    let has_setup_py = path_exists(listing, "setup.py");
    let has_setup_cfg = path_exists(listing, "setup.cfg");
    if has_pyproject || has_requirements || has_setup_py || has_setup_cfg {
        let build = if has_pyproject {
            "pyproject/pip"
        } else if has_setup_py || has_setup_cfg {
            "setuptools/pip"
        } else {
            "pip"
        };
        Some(info("Python", build))
    } else {
        None
    }
}

/// Detects a blueprint's language or framework and build system from its files.
pub fn detect_project_type(listing: &ProjectListing) -> (r: ProjectInfo)
    ensures
        r@ == detect(
            entry_views(listing.entries@),
            match listing.package_json { Some(c) => Some(c@), None => None },
        ),
{
    if check_rust(listing) {
        return info("Rust", "Cargo");
    }
    if check_go(listing) {
        return info("Go", "Go Modules");
    }
    if path_exists(listing, "package.json") {
        return check_javascript(&listing.package_json);
    }
    if check_cmake(listing) {
        return info("C/C++", "CMake");
    }
    if let Some(i) = check_java_kotlin(listing) {
        return i;
    }
    if let Some(i) = check_python(listing) {
        return i;
    }
    if check_php(listing) {
        return info("PHP", "Composer");
    }
    if check_ruby(listing) {
        return info("Ruby", "Bundler");
    }
    match check_extensions(listing) {
        Some(lang) => info(lang, "Unknown (by extension)"),
        None => ProjectInfo::default(),
    }
}

/// Whether `package.json` text (lowercased) names a frontend framework.
pub open spec fn names_frontend_framework(lc: Seq<char>) -> bool {
    contains(lc, "\"react\""@) || contains(lc, "\"vue\""@) || contains(lc, "\"angular\""@)
        || contains(lc, "\"svelte\""@)
}

/// A listing with an existing `package.json`, and neither `Cargo.toml` nor `go.mod`, is a
/// JavaScript project. By its lowercased `package.json` text: a frontend project when it
/// names `"react"`, `"vue"`, `"angular"` or `"svelte"`, else TypeScript when it names
/// `"typescript"`, else Node.js; built with the first of Webpack, Vite, Parcel, Rollup and
/// esbuild that it names, else npm/yarn. Without readable `package.json` text it is
/// Node.js with npm/yarn.
pub proof fn lemma_javascript_detection(es: Seq<(Seq<char>, bool)>, package_json: Option<Seq<char>>)
    requires
        has_file(es, "package.json"@),
        !has_file(es, "Cargo.toml"@),
        !has_file(es, "go.mod"@),
    ensures
        package_json is None ==> detect(es, package_json) == ("Node.js"@, "npm/yarn"@),
        package_json matches Some(c) ==> {
            let lc = lowercase(c);
            let d = detect(es, package_json);
            &&& names_frontend_framework(lc) ==> d.0 == "Frontend JavaScript/TypeScript"@
            &&& !names_frontend_framework(lc) && contains(lc, "\"typescript\""@) ==> d.0
                == "TypeScript"@
            &&& !names_frontend_framework(lc) && !contains(lc, "\"typescript\""@) ==> d.0
                == "Node.js"@
            &&& contains(lc, "\"webpack\""@) ==> d.1 == "Webpack"@
            &&& !contains(lc, "\"webpack\""@) && contains(lc, "\"vite\""@) ==> d.1 == "Vite"@
            &&& !contains(lc, "\"webpack\""@) && !contains(lc, "\"vite\""@) && contains(
                lc,
                "\"parcel\""@,
            ) ==> d.1 == "Parcel"@
            &&& !contains(lc, "\"webpack\""@) && !contains(lc, "\"vite\""@) && !contains(
                lc,
                "\"parcel\""@,
            ) && contains(lc, "\"rollup\""@) ==> d.1 == "Rollup"@
            &&& !contains(lc, "\"webpack\""@) && !contains(lc, "\"vite\""@) && !contains(
                lc,
                "\"parcel\""@,
            ) && !contains(lc, "\"rollup\""@) && contains(lc, "\"esbuild\""@) ==> d.1
                == "esbuild"@
            &&& !contains(lc, "\"webpack\""@) && !contains(lc, "\"vite\""@) && !contains(
                lc,
                "\"parcel\""@,
            ) && !contains(lc, "\"rollup\""@) && !contains(lc, "\"esbuild\""@) ==> d.1
                == "npm/yarn"@
        },
{
}

/// The marker files decide in a fixed order: `Cargo.toml` makes a Rust project built with
/// Cargo whatever else is there, then `go.mod` a Go project with Go Modules, then
/// `package.json` a JavaScript one; then `CMakeLists.txt` (C/C++, CMake), `pom.xml`
/// (Java, Maven), `build.gradle` or `build.gradle.kts` (Java/Kotlin, Gradle),
/// `pyproject.toml`, `setup.py` or `setup.cfg`, `requirements.txt` (Python with
/// pyproject/pip, setuptools/pip, pip), `composer.json` (PHP, Composer) and `Gemfile`
/// (Ruby, Bundler). Only a listing with none of them is judged by extension, and then the
/// build system is "Unknown (by extension)", or both are "Unknown".
pub proof fn lemma_marker_precedence(es: Seq<(Seq<char>, bool)>, package_json: Option<Seq<char>>)
    ensures
        has_file(es, "Cargo.toml"@) ==> detect(es, package_json) == ("Rust"@, "Cargo"@),
        !has_file(es, "Cargo.toml"@) && has_file(es, "go.mod"@) ==> detect(es, package_json) == (
            "Go"@,
            "Go Modules"@,
        ),
        ({
            let no_earlier = !has_file(es, "Cargo.toml"@) && !has_file(es, "go.mod"@)
                && !has_file(es, "package.json"@);
            &&& no_earlier && has_file(es, "CMakeLists.txt"@) ==> detect(es, package_json) == (
                "C/C++"@,
                "CMake"@,
            )
            &&& no_earlier && !has_file(es, "CMakeLists.txt"@) && has_file(es, "pom.xml"@)
                ==> detect(es, package_json) == ("Java"@, "Maven"@)
            &&& no_earlier && !has_file(es, "CMakeLists.txt"@) && !has_file(es, "pom.xml"@) && (
            has_file(es, "build.gradle"@) || has_file(es, "build.gradle.kts"@)) ==> detect(
                es,
                package_json,
            ) == ("Java/Kotlin"@, "Gradle"@)
        }),
        ({
            let none = !has_file(es, "Cargo.toml"@) && !has_file(es, "go.mod"@) && !has_file(
                es,
                "package.json"@,
            ) && !has_file(es, "CMakeLists.txt"@) && !has_file(es, "pom.xml"@) && !has_file(
                es,
                "build.gradle"@,
            ) && !has_file(es, "build.gradle.kts"@);
            &&& none && has_file(es, "pyproject.toml"@) ==> detect(es, package_json) == (
                "Python"@,
                "pyproject/pip"@,
            )
            &&& none && !has_file(es, "pyproject.toml"@) && (has_file(es, "setup.py"@) || has_file(
                es,
                "setup.cfg"@,
            )) ==> detect(es, package_json) == ("Python"@, "setuptools/pip"@)
            &&& none && !has_file(es, "pyproject.toml"@) && !has_file(es, "setup.py"@) && !has_file(
                es,
                "setup.cfg"@,
            ) && has_file(es, "requirements.txt"@) ==> detect(es, package_json) == (
                "Python"@,
                "pip"@,
            )
            &&& none && !has_file(es, "pyproject.toml"@) && !has_file(es, "setup.py"@) && !has_file(
                es,
                "setup.cfg"@,
            ) && !has_file(es, "requirements.txt"@) && has_file(es, "composer.json"@) ==> detect(
                es,
                package_json,
            ) == ("PHP"@, "Composer"@)
            &&& none && !has_file(es, "pyproject.toml"@) && !has_file(es, "setup.py"@) && !has_file(
                es,
                "setup.cfg"@,
            ) && !has_file(es, "requirements.txt"@) && !has_file(es, "composer.json"@) && has_file(
                es,
                "Gemfile"@,
            ) ==> detect(es, package_json) == ("Ruby"@, "Bundler"@)
            &&& none && !has_file(es, "pyproject.toml"@) && !has_file(es, "setup.py"@) && !has_file(
                es,
                "setup.cfg"@,
            ) && !has_file(es, "requirements.txt"@) && !has_file(es, "composer.json"@) && !has_file(
                es,
                "Gemfile"@,
            ) ==> (detect(es, package_json).1 == "Unknown (by extension)"@ || detect(
                es,
                package_json,
            ) == ("Unknown"@, "Unknown"@))
        }),
{
}

/// The last `.` of `b.e`, when `e` holds none, is the one after `b`.
proof fn lemma_last_dot_of(b: Seq<char>, e: Seq<char>)
    requires
        forall|j: int| 0 <= j < e.len() ==> e[j] != '.',
    ensures
        last_dot(b + seq!['.'] + e) == b.len(),
    decreases e.len(),
{
    let s = b + seq!['.'] + e;
    if e.len() == 0 {
        assert(s.last() == '.');
    } else {
        assert(s.last() == e.last());
        assert(s.drop_last() == b + seq!['.'] + e.drop_last());
        lemma_last_dot_of(b, e.drop_last());
    }
}

/// A file named `BASE.EXT` (`BASE` and `EXT` not empty, `EXT` without a `.`) has the language of
/// its extension: `rs` Rust, `go` Go, `py` Python, `js`/`mjs`/`cjs` JavaScript,
/// `ts`/`tsx` TypeScript, `java` Java, `kt`/`kts` Kotlin, `c`/`h` C, `cpp`/`hpp`/`cxx`/
/// `hxx` C++, `rb` Ruby, `php` PHP; any other extension gives none.
pub proof fn lemma_extension_language(base: Seq<char>, ext: Seq<char>)
    requires
        base.len() > 0,
        ext.len() > 0,
        forall|j: int| 0 <= j < ext.len() ==> ext[j] != '.',
    ensures
        ({
            let l = name_language(base + seq!['.'] + ext);
            &&& ext == "rs"@ ==> l == Some("Rust"@)
            &&& ext == "go"@ ==> l == Some("Go"@)
            &&& ext == "py"@ ==> l == Some("Python"@)
            &&& (ext == "js"@ || ext == "mjs"@ || ext == "cjs"@) ==> l == Some("JavaScript"@)
            &&& (ext == "ts"@ || ext == "tsx"@) ==> l == Some("TypeScript"@)
            &&& ext == "java"@ ==> l == Some("Java"@)
            &&& (ext == "kt"@ || ext == "kts"@) ==> l == Some("Kotlin"@)
            &&& (ext == "c"@ || ext == "h"@) ==> l == Some("C"@)
            &&& (ext == "cpp"@ || ext == "hpp"@ || ext == "cxx"@ || ext == "hxx"@) ==> l == Some(
                "C++"@,
            )
            &&& ext == "rb"@ ==> l == Some("Ruby"@)
            &&& ext == "php"@ ==> l == Some("PHP"@)
        }),
{
    let name = base + seq!['.'] + ext;
    lemma_last_dot_of(base, ext);
    reveal_strlit("rs");
    reveal_strlit("go");
    reveal_strlit("py");
    reveal_strlit("js");
    reveal_strlit("mjs");
    reveal_strlit("cjs");
    reveal_strlit("ts");
    reveal_strlit("tsx");
    reveal_strlit("java");
    reveal_strlit("kt");
    reveal_strlit("kts");
    reveal_strlit("c");
    reveal_strlit("h");
    reveal_strlit("cpp");
    reveal_strlit("hpp");
    reveal_strlit("cxx");
    reveal_strlit("hxx");
    reveal_strlit("rb");
    reveal_strlit("php");
    reveal_strlit("..");
    assert(name.len() >= 3);
    assert(name != ".."@);
    assert(name.skip(base.len() as int + 1) =~= ext);
    assert(file_extension(name) == Some(ext));
    assert("go"@[0] != "rs"@[0]);
    assert("py"@[0] != "rs"@[0] && "py"@[0] != "go"@[0]);
    assert("js"@[0] != "rs"@[0] && "js"@[0] != "go"@[0] && "js"@[0] != "py"@[0]);
    assert("mjs"@.len() != "rs"@.len() && "mjs"@.len() != "go"@.len() && "mjs"@.len() != "py"@.len() && "mjs"@.len() != "js"@.len());
    assert("cjs"@.len() != "rs"@.len() && "cjs"@.len() != "go"@.len() && "cjs"@.len() != "py"@.len() && "cjs"@.len() != "js"@.len() && "cjs"@[0] != "mjs"@[0]);
    assert("ts"@[0] != "rs"@[0] && "ts"@[0] != "go"@[0] && "ts"@[0] != "py"@[0] && "ts"@[0] != "js"@[0] && "ts"@.len() != "mjs"@.len() && "ts"@.len() != "cjs"@.len());
    assert("tsx"@.len() != "rs"@.len() && "tsx"@.len() != "go"@.len() && "tsx"@.len() != "py"@.len() && "tsx"@.len() != "js"@.len() && "tsx"@[0] != "mjs"@[0] && "tsx"@[0] != "cjs"@[0] && "tsx"@.len() != "ts"@.len());
    assert("java"@.len() != "rs"@.len() && "java"@.len() != "go"@.len() && "java"@.len() != "py"@.len() && "java"@.len() != "js"@.len() && "java"@.len() != "mjs"@.len() && "java"@.len() != "cjs"@.len() && "java"@.len() != "ts"@.len() && "java"@.len() != "tsx"@.len());
    assert("kt"@[0] != "rs"@[0] && "kt"@[0] != "go"@[0] && "kt"@[0] != "py"@[0] && "kt"@[0] != "js"@[0] && "kt"@.len() != "mjs"@.len() && "kt"@.len() != "cjs"@.len() && "kt"@[0] != "ts"@[0] && "kt"@.len() != "tsx"@.len() && "kt"@.len() != "java"@.len());
    assert("kts"@.len() != "rs"@.len() && "kts"@.len() != "go"@.len() && "kts"@.len() != "py"@.len() && "kts"@.len() != "js"@.len() && "kts"@[0] != "mjs"@[0] && "kts"@[0] != "cjs"@[0] && "kts"@.len() != "ts"@.len() && "kts"@[0] != "tsx"@[0] && "kts"@.len() != "java"@.len() && "kts"@.len() != "kt"@.len());
    assert("c"@.len() != "rs"@.len() && "c"@.len() != "go"@.len() && "c"@.len() != "py"@.len() && "c"@.len() != "js"@.len() && "c"@.len() != "mjs"@.len() && "c"@.len() != "cjs"@.len() && "c"@.len() != "ts"@.len() && "c"@.len() != "tsx"@.len() && "c"@.len() != "java"@.len() && "c"@.len() != "kt"@.len() && "c"@.len() != "kts"@.len());
    assert("h"@.len() != "rs"@.len() && "h"@.len() != "go"@.len() && "h"@.len() != "py"@.len() && "h"@.len() != "js"@.len() && "h"@.len() != "mjs"@.len() && "h"@.len() != "cjs"@.len() && "h"@.len() != "ts"@.len() && "h"@.len() != "tsx"@.len() && "h"@.len() != "java"@.len() && "h"@.len() != "kt"@.len() && "h"@.len() != "kts"@.len() && "h"@[0] != "c"@[0]);
    assert("cpp"@.len() != "rs"@.len() && "cpp"@.len() != "go"@.len() && "cpp"@.len() != "py"@.len() && "cpp"@.len() != "js"@.len() && "cpp"@[0] != "mjs"@[0] && "cpp"@[1] != "cjs"@[1] && "cpp"@.len() != "ts"@.len() && "cpp"@[0] != "tsx"@[0] && "cpp"@.len() != "java"@.len() && "cpp"@.len() != "kt"@.len() && "cpp"@[0] != "kts"@[0] && "cpp"@.len() != "c"@.len() && "cpp"@.len() != "h"@.len());
    assert("hpp"@.len() != "rs"@.len() && "hpp"@.len() != "go"@.len() && "hpp"@.len() != "py"@.len() && "hpp"@.len() != "js"@.len() && "hpp"@[0] != "mjs"@[0] && "hpp"@[0] != "cjs"@[0] && "hpp"@.len() != "ts"@.len() && "hpp"@[0] != "tsx"@[0] && "hpp"@.len() != "java"@.len() && "hpp"@.len() != "kt"@.len() && "hpp"@[0] != "kts"@[0] && "hpp"@.len() != "c"@.len() && "hpp"@.len() != "h"@.len() && "hpp"@[0] != "cpp"@[0]);
    assert("cxx"@.len() != "rs"@.len() && "cxx"@.len() != "go"@.len() && "cxx"@.len() != "py"@.len() && "cxx"@.len() != "js"@.len() && "cxx"@[0] != "mjs"@[0] && "cxx"@[1] != "cjs"@[1] && "cxx"@.len() != "ts"@.len() && "cxx"@[0] != "tsx"@[0] && "cxx"@.len() != "java"@.len() && "cxx"@.len() != "kt"@.len() && "cxx"@[0] != "kts"@[0] && "cxx"@.len() != "c"@.len() && "cxx"@.len() != "h"@.len() && "cxx"@[1] != "cpp"@[1] && "cxx"@[0] != "hpp"@[0]);
    assert("hxx"@.len() != "rs"@.len() && "hxx"@.len() != "go"@.len() && "hxx"@.len() != "py"@.len() && "hxx"@.len() != "js"@.len() && "hxx"@[0] != "mjs"@[0] && "hxx"@[0] != "cjs"@[0] && "hxx"@.len() != "ts"@.len() && "hxx"@[0] != "tsx"@[0] && "hxx"@.len() != "java"@.len() && "hxx"@.len() != "kt"@.len() && "hxx"@[0] != "kts"@[0] && "hxx"@.len() != "c"@.len() && "hxx"@.len() != "h"@.len() && "hxx"@[0] != "cpp"@[0] && "hxx"@[1] != "hpp"@[1] && "hxx"@[0] != "cxx"@[0]);
    assert("rb"@[1] != "rs"@[1] && "rb"@[0] != "go"@[0] && "rb"@[0] != "py"@[0] && "rb"@[0] != "js"@[0] && "rb"@.len() != "mjs"@.len() && "rb"@.len() != "cjs"@.len() && "rb"@[0] != "ts"@[0] && "rb"@.len() != "tsx"@.len() && "rb"@.len() != "java"@.len() && "rb"@[0] != "kt"@[0] && "rb"@.len() != "kts"@.len() && "rb"@.len() != "c"@.len() && "rb"@.len() != "h"@.len() && "rb"@.len() != "cpp"@.len() && "rb"@.len() != "hpp"@.len() && "rb"@.len() != "cxx"@.len() && "rb"@.len() != "hxx"@.len());
    assert("php"@.len() != "rs"@.len() && "php"@.len() != "go"@.len() && "php"@.len() != "py"@.len() && "php"@.len() != "js"@.len() && "php"@[0] != "mjs"@[0] && "php"@[0] != "cjs"@[0] && "php"@.len() != "ts"@.len() && "php"@[0] != "tsx"@[0] && "php"@.len() != "java"@.len() && "php"@.len() != "kt"@.len() && "php"@[0] != "kts"@[0] && "php"@.len() != "c"@.len() && "php"@.len() != "h"@.len() && "php"@[0] != "cpp"@[0] && "php"@[0] != "hpp"@[0] && "php"@[0] != "cxx"@[0] && "php"@[0] != "hxx"@[0] && "php"@.len() != "rb"@.len());
}

} // verus!
