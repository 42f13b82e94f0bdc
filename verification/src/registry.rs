//! The language registry: a fixed table mapping a language identifier to the
//! toolchain commands and source-file conventions for that language.

use vstd::prelude::*;

verus! {

use vstd::string::StringExecFns;

/// The mathematical content of a [`LangInfo`]: every string as a sequence of
/// characters.
pub struct LangInfoView {
    pub name: Seq<char>,
    pub cmds: Seq<Seq<char>>,
    pub test_cmds: Seq<Seq<char>>,
    pub file_name: Seq<char>,
    pub scaffold_cmds: Seq<Seq<char>>,
}

/// One supported language: its identifier, the shell argument templates for
/// running and testing a submission, the name of the source file a submission
/// is written to, and the commands (if any) that generate the project
/// scaffold the toolchain needs around that file.
///
/// An empty `test_cmds` means the language has no test harness; an empty
/// `scaffold_cmds` means its source file stands alone, with no enclosing
/// project structure.
pub struct LangInfo {
    name: String,
    cmds: Vec<String>,
    test_cmds: Vec<String>,
    file_name: String,
    scaffold_cmds: Vec<String>,
}

impl View for LangInfo {
    type V = LangInfoView;

    closed spec fn view(&self) -> LangInfoView {
        LangInfoView {
            name: self.name@,
            cmds: self.cmds.deep_view(),
            test_cmds: self.test_cmds.deep_view(),
            file_name: self.file_name@,
            scaffold_cmds: self.scaffold_cmds.deep_view(),
        }
    }
}

impl LangInfo {
    pub fn new(
        name: String,
        cmds: Vec<String>,
        test_cmds: Vec<String>,
        file_name: String,
        scaffold_cmds: Vec<String>,
    ) -> (r: Self)
        ensures
            r@.name == name@,
            r@.cmds == cmds.deep_view(),
            r@.test_cmds == test_cmds.deep_view(),
            r@.file_name == file_name@,
            r@.scaffold_cmds == scaffold_cmds.deep_view(),
    {
        Self { name, cmds, test_cmds, file_name, scaffold_cmds }
    }

    pub fn name(&self) -> (r: &String)
        ensures
            r@ == self@.name,
    {
        &self.name
    }

    pub fn cmds(&self) -> (r: &Vec<String>)
        ensures
            r.deep_view() == self@.cmds,
    {
        &self.cmds
    }

    pub fn test_cmds(&self) -> (r: &Vec<String>)
        ensures
            r.deep_view() == self@.test_cmds,
    {
        &self.test_cmds
    }

    pub fn file_name(&self) -> (r: &String)
        ensures
            r@ == self@.file_name,
    {
        &self.file_name
    }

    pub fn scaffold_cmds(&self) -> (r: &Vec<String>)
        ensures
            r.deep_view() == self@.scaffold_cmds,
    {
        &self.scaffold_cmds
    }
}

/// A registry is well formed when no identifier names two entries and every
/// entry has a non-empty run command list.
pub open spec fn registry_wf(entries: Seq<LangInfo>) -> bool {
    &&& forall|i: int, j: int|
        0 <= i < j < entries.len() ==> entries[i]@.name != entries[j]@.name
    &&& forall|i: int| 0 <= i < entries.len() ==> entries[i]@.cmds.len() > 0
}

/// Whether some entry of `entries` carries the identifier `lang`.
pub open spec fn registry_has(entries: Seq<LangInfo>, lang: Seq<char>) -> bool {
    exists|i: int| 0 <= i < entries.len() && entries[i]@.name == lang
}

/// The table of supported languages, fixed at startup and immutable
/// afterwards. Lookup by identifier is pure; an identifier that resolves to
/// no entry is reported upward by the dispatcher, not here.
pub struct Registry {
    entries: Vec<LangInfo>,
}

impl View for Registry {
    type V = Seq<LangInfo>;

    closed spec fn view(&self) -> Seq<LangInfo> {
        self.entries@
    }
}

impl Registry {
    pub open spec fn wf(&self) -> bool {
        registry_wf(self@)
    }

    /// Pure lookup: returns the unique entry named `lang`, or `None` when no
    /// entry carries that identifier.
    pub fn lookup(&self, lang: &String) -> (r: Option<&LangInfo>)
        ensures
            match r {
                Some(li) => exists|i: int|
                    0 <= i < self@.len() && self@[i] == *li && #[trigger] self@[i]@.name
                        == lang@,
                None => !registry_has(self@, lang@),
            },
    {
        let n = self.entries.len();
        for i in 0..n
            invariant
                n == self.entries.len(),
                forall|k: int| 0 <= k < i ==> self@[k]@.name != lang@,
        {
            if self.entries[i].name == *lang {
                proof {
                    let k = i as int;
                    assert(0 <= k < self@.len() && self@[k]@.name == lang@);
                }
                return Some(&self.entries[i]);
            }
        }
        None
    }
}

/// The first entry of `entries` named `lang`, if any: the mathematical
/// content of [`Registry::lookup`].
pub open spec fn spec_find(entries: Seq<LangInfo>, lang: Seq<char>) -> Option<LangInfo>
    decreases entries.len(),
{
    if entries.len() == 0 {
        None
    } else if entries[0]@.name == lang {
        Some(entries[0])
    } else {
        spec_find(entries.skip(1), lang)
    }
}

/// `spec_find` succeeds exactly on the identifiers some entry carries.
pub proof fn lemma_find_iff_has(entries: Seq<LangInfo>, lang: Seq<char>)
    ensures
        spec_find(entries, lang) is Some <==> registry_has(entries, lang),
    decreases entries.len(),
{
    if entries.len() > 0 && entries[0]@.name != lang {
        lemma_find_iff_has(entries.skip(1), lang);
        assert(registry_has(entries.skip(1), lang) ==> registry_has(entries, lang)) by {
            if registry_has(entries.skip(1), lang) {
                let i = choose|i: int|
                    0 <= i < entries.skip(1).len() && entries.skip(1)[i]@.name == lang;
                assert(entries[i + 1]@.name == lang);
            }
        }
        assert(registry_has(entries, lang) ==> registry_has(entries.skip(1), lang)) by {
            if registry_has(entries, lang) {
                let i = choose|i: int| 0 <= i < entries.len() && entries[i]@.name == lang;
                assert(entries.skip(1)[i - 1]@.name == lang);
            }
        }
    }
}

/// In a registry with no duplicate identifiers, `spec_find` returns the
/// entry at any index whose name matches.
pub proof fn lemma_find_unique(entries: Seq<LangInfo>, lang: Seq<char>, i: int)
    requires
        forall|a: int, b: int|
            0 <= a < b < entries.len() ==> entries[a]@.name != entries[b]@.name,
        0 <= i < entries.len(),
        entries[i]@.name == lang,
    ensures
        spec_find(entries, lang) == Some(entries[i]),
    decreases entries.len(),
{
    if i == 0 {
    } else {
        assert(entries[0]@.name != lang);
        lemma_find_unique(entries.skip(1), lang, i - 1);
        assert(entries.skip(1)[i - 1] == entries[i]);
    }
}

/// `spec_find` only ever returns an entry of the registry.
proof fn lemma_find_is_entry(entries: Seq<LangInfo>, lang: Seq<char>)
    ensures
        spec_find(entries, lang) matches Some(li) ==> exists|i: int|
            0 <= i < entries.len() && entries[i] == li,
    decreases entries.len(),
{
    if entries.len() > 0 && entries[0]@.name != lang {
        lemma_find_is_entry(entries.skip(1), lang);
        if let Some(li) = spec_find(entries.skip(1), lang) {
            let i = choose|i: int| 0 <= i < entries.skip(1).len() && entries.skip(1)[i] == li;
            assert(entries[i + 1] == li);
        }
    }
}

/// Every language identifier the registry supports resolves to a spec
/// whose run command list is non-empty.
pub proof fn lemma_supported_language_runnable(entries: Seq<LangInfo>, lang: Seq<char>)
    requires
        registry_wf(entries),
    ensures
        spec_find(entries, lang) matches Some(li) ==> li@.cmds.len() > 0,
{
    lemma_find_is_entry(entries, lang);
}

/// Builds a two-argument shell invocation: the interpreter's "run this
/// command line" flag followed by the command line itself.
fn sh(line: &str) -> (v: Vec<String>)
    ensures
        v.deep_view().len() == 2,
        v.deep_view()[0] == "-c"@,
        v.deep_view()[1] == line@,
{
    let mut v: Vec<String> = Vec::new();
    v.push("-c".to_owned());
    v.push(line.to_owned());
    v
}

/// An empty command list: no test harness, or no scaffold, for a language.
fn no_cmds() -> (v: Vec<String>)
    ensures
        v.deep_view().len() == 0,
{
    Vec::new()
}

/// The supported languages and their toolchain command templates, as
/// mathematical values: what [`Registry::new`] builds. `{dir}` in a
/// template stands for the submission's private workspace directory and is
/// resolved before invocation.
pub open spec fn spec_table() -> Seq<LangInfoView> {
    seq![
        LangInfoView {
            name: "python"@,
            cmds: seq!["-c"@, "python3 {dir}/main.py"@],
            test_cmds: seq!["-c"@, "python3 {dir}/main.py"@],
            file_name: "main.py"@,
            scaffold_cmds: Seq::empty(),
        },
        LangInfoView {
            name: "javascript"@,
            cmds: seq!["-c"@, "node {dir}/main.js"@],
            test_cmds: Seq::empty(),
            file_name: "main.js"@,
            scaffold_cmds: Seq::empty(),
        },
        LangInfoView {
            name: "typescript"@,
            cmds: seq!["-c"@, "npx tsx {dir}/main.ts"@],
            test_cmds: Seq::empty(),
            file_name: "main.ts"@,
            scaffold_cmds: Seq::empty(),
        },
        LangInfoView {
            name: "cpp"@,
            cmds: seq![
                "-c"@,
                "clang++ -std=c++20 {dir}/main.cpp -o {dir}/main.out && {dir}/main.out"@,
            ],
            test_cmds: Seq::empty(),
            file_name: "main.cpp"@,
            scaffold_cmds: Seq::empty(),
        },
        LangInfoView {
            name: "c"@,
            cmds: seq!["-c"@, "gcc {dir}/main.c -o {dir}/main.out && {dir}/main.out"@],
            test_cmds: Seq::empty(),
            file_name: "main.c"@,
            scaffold_cmds: Seq::empty(),
        },
        LangInfoView {
            name: "rust"@,
            cmds: seq!["-c"@, "cargo run --manifest-path {dir}/rust/Cargo.toml"@],
            test_cmds: seq!["-c"@, "cargo test --manifest-path {dir}/rust/Cargo.toml"@],
            file_name: "rust/src/main.rs"@,
            scaffold_cmds: seq!["-c"@, "cargo new {dir}/rust --name rust"@],
        },
        LangInfoView {
            name: "kotlin"@,
            cmds: seq!["-c"@, "kotlinc -script {dir}/main.kts"@],
            test_cmds: Seq::empty(),
            file_name: "main.kts"@,
            scaffold_cmds: Seq::empty(),
        },
        LangInfoView {
            name: "java"@,
            cmds: seq!["-c"@, "javac {dir}/Main.java && java -classpath {dir} Main"@],
            test_cmds: Seq::empty(),
            file_name: "Main.java"@,
            scaffold_cmds: Seq::empty(),
        },
        LangInfoView {
            name: "go"@,
            cmds: seq!["-c"@, "go run {dir}/main.go"@],
            test_cmds: Seq::empty(),
            file_name: "main.go"@,
            scaffold_cmds: Seq::empty(),
        },
        LangInfoView {
            name: "elixir"@,
            cmds: seq!["-c"@, "elixir {dir}/main.exs"@],
            test_cmds: Seq::empty(),
            file_name: "main.exs"@,
            scaffold_cmds: Seq::empty(),
        },
    ]
}

impl Registry {
    /// The fixed table of supported languages and their toolchain command
    /// templates: exactly the entries of [`spec_table`].
    pub fn new() -> (r: Registry)
        ensures
            r.wf(),
            r@.len() == spec_table().len(),
            forall|i: int| 0 <= i < r@.len() ==> #[trigger] r@[i]@ == spec_table()[i],
    {
        let mut entries: Vec<LangInfo> = Vec::new();
        entries.push(LangInfo::new(
            "python".to_owned(),
            sh("python3 {dir}/main.py"),
            sh("python3 {dir}/main.py"),
            "main.py".to_owned(),
            no_cmds(),
        ));
        entries.push(LangInfo::new(
            "javascript".to_owned(),
            sh("node {dir}/main.js"),
            no_cmds(),
            "main.js".to_owned(),
            no_cmds(),
        ));
        entries.push(LangInfo::new(
            "typescript".to_owned(),
            sh("npx tsx {dir}/main.ts"),
            no_cmds(),
            "main.ts".to_owned(),
            no_cmds(),
        ));
        entries.push(LangInfo::new(
            "cpp".to_owned(),
            sh("clang++ -std=c++20 {dir}/main.cpp -o {dir}/main.out && {dir}/main.out"),
            no_cmds(),
            "main.cpp".to_owned(),
            no_cmds(),
        ));
        entries.push(LangInfo::new(
            "c".to_owned(),
            sh("gcc {dir}/main.c -o {dir}/main.out && {dir}/main.out"),
            no_cmds(),
            "main.c".to_owned(),
            no_cmds(),
        ));
        entries.push(LangInfo::new(
            "rust".to_owned(),
            sh("cargo run --manifest-path {dir}/rust/Cargo.toml"),
            sh("cargo test --manifest-path {dir}/rust/Cargo.toml"),
            "rust/src/main.rs".to_owned(),
            sh("cargo new {dir}/rust --name rust"),
        ));
        entries.push(LangInfo::new(
            "kotlin".to_owned(),
            sh("kotlinc -script {dir}/main.kts"),
            no_cmds(),
            "main.kts".to_owned(),
            no_cmds(),
        ));
        entries.push(LangInfo::new(
            "java".to_owned(),
            sh("javac {dir}/Main.java && java -classpath {dir} Main"),
            no_cmds(),
            "Main.java".to_owned(),
            no_cmds(),
        ));
        entries.push(LangInfo::new(
            "go".to_owned(),
            sh("go run {dir}/main.go"),
            no_cmds(),
            "main.go".to_owned(),
            no_cmds(),
        ));
        entries.push(LangInfo::new(
            "elixir".to_owned(),
            sh("elixir {dir}/main.exs"),
            no_cmds(),
            "main.exs".to_owned(),
            no_cmds(),
        ));
        let r = Registry { entries };
        proof {
            reveal_strlit("python");
            reveal_strlit("javascript");
            reveal_strlit("typescript");
            reveal_strlit("cpp");
            reveal_strlit("c");
            reveal_strlit("rust");
            reveal_strlit("kotlin");
            reveal_strlit("java");
            reveal_strlit("go");
            reveal_strlit("elixir");
            assert(r@.len() == 10);
            assert(r@[0]@.name == "python"@);
            assert(r@[1]@.name == "javascript"@);
            assert(r@[2]@.name == "typescript"@);
            assert(r@[3]@.name == "cpp"@);
            assert(r@[4]@.name == "c"@);
            assert(r@[5]@.name == "rust"@);
            assert(r@[6]@.name == "kotlin"@);
            assert(r@[7]@.name == "java"@);
            assert(r@[8]@.name == "go"@);
            assert(r@[9]@.name == "elixir"@);
            assert(r@[0]@.cmds =~= spec_table()[0].cmds);
            assert(r@[0]@.test_cmds =~= spec_table()[0].test_cmds);
            assert(r@[0]@.scaffold_cmds =~= spec_table()[0].scaffold_cmds);
            assert(r@[0]@ == spec_table()[0]);
            assert(r@[1]@.cmds =~= spec_table()[1].cmds);
            assert(r@[1]@.test_cmds =~= spec_table()[1].test_cmds);
            assert(r@[1]@.scaffold_cmds =~= spec_table()[1].scaffold_cmds);
            assert(r@[1]@ == spec_table()[1]);
            assert(r@[2]@.cmds =~= spec_table()[2].cmds);
            assert(r@[2]@.test_cmds =~= spec_table()[2].test_cmds);
            assert(r@[2]@.scaffold_cmds =~= spec_table()[2].scaffold_cmds);
            assert(r@[2]@ == spec_table()[2]);
            assert(r@[3]@.cmds =~= spec_table()[3].cmds);
            assert(r@[3]@.test_cmds =~= spec_table()[3].test_cmds);
            assert(r@[3]@.scaffold_cmds =~= spec_table()[3].scaffold_cmds);
            assert(r@[3]@ == spec_table()[3]);
            assert(r@[4]@.cmds =~= spec_table()[4].cmds);
            assert(r@[4]@.test_cmds =~= spec_table()[4].test_cmds);
            assert(r@[4]@.scaffold_cmds =~= spec_table()[4].scaffold_cmds);
            assert(r@[4]@ == spec_table()[4]);
            assert(r@[5]@.cmds =~= spec_table()[5].cmds);
            assert(r@[5]@.test_cmds =~= spec_table()[5].test_cmds);
            assert(r@[5]@.scaffold_cmds =~= spec_table()[5].scaffold_cmds);
            assert(r@[5]@ == spec_table()[5]);
            assert(r@[6]@.cmds =~= spec_table()[6].cmds);
            assert(r@[6]@.test_cmds =~= spec_table()[6].test_cmds);
            assert(r@[6]@.scaffold_cmds =~= spec_table()[6].scaffold_cmds);
            assert(r@[6]@ == spec_table()[6]);
            assert(r@[7]@.cmds =~= spec_table()[7].cmds);
            assert(r@[7]@.test_cmds =~= spec_table()[7].test_cmds);
            assert(r@[7]@.scaffold_cmds =~= spec_table()[7].scaffold_cmds);
            assert(r@[7]@ == spec_table()[7]);
            assert(r@[8]@.cmds =~= spec_table()[8].cmds);
            assert(r@[8]@.test_cmds =~= spec_table()[8].test_cmds);
            assert(r@[8]@.scaffold_cmds =~= spec_table()[8].scaffold_cmds);
            assert(r@[8]@ == spec_table()[8]);
            assert(r@[9]@.cmds =~= spec_table()[9].cmds);
            assert(r@[9]@.test_cmds =~= spec_table()[9].test_cmds);
            assert(r@[9]@.scaffold_cmds =~= spec_table()[9].scaffold_cmds);
            assert(r@[9]@ == spec_table()[9]);
            assert(forall|i: int, j: int|
                0 <= i < j < r@.len() ==> r@[i]@.name != r@[j]@.name) by {
                assert("python"@.len() == 6);
                assert("javascript"@.len() == 10);
                assert("typescript"@.len() == 10);
                assert("cpp"@.len() == 3);
                assert("c"@.len() == 1);
                assert("rust"@.len() == 4);
                assert("kotlin"@.len() == 6);
                assert("java"@.len() == 4);
                assert("go"@.len() == 2);
                assert("elixir"@.len() == 6);
                assert("python"@[0] != "kotlin"@[0]);
                assert("python"@[0] != "elixir"@[0]);
                assert("kotlin"@[0] != "elixir"@[0]);
                assert("javascript"@[0] != "typescript"@[0]);
                assert("rust"@[0] != "java"@[0]);
            }
            assert(forall|i: int| 0 <= i < r@.len() ==> #[trigger] r@[i]@.cmds.len() > 0) by {
                assert(r@[0]@.cmds.len() == 2);
                assert(r@[1]@.cmds.len() == 2);
                assert(r@[2]@.cmds.len() == 2);
                assert(r@[3]@.cmds.len() == 2);
                assert(r@[4]@.cmds.len() == 2);
                assert(r@[5]@.cmds.len() == 2);
                assert(r@[6]@.cmds.len() == 2);
                assert(r@[7]@.cmds.len() == 2);
                assert(r@[8]@.cmds.len() == 2);
                assert(r@[9]@.cmds.len() == 2);
            }
        }
        r
    }
}

} // verus!
