use vstd::prelude::*;

use crate::text::str_chars;

verus! {

pub const C: &'static str = "c";
pub const C_HEADER: &'static str = "c-header";
pub const CPP: &'static str = "cpp";
pub const CPP_HEADER: &'static str = "cpp-header";
pub const HTML: &'static str = "html";
pub const CSS: &'static str = "css";
pub const JAVASCRIPT: &'static str = "javascript";
pub const TYPESCRIPT: &'static str = "typescript";
pub const JAVASCRIPT_REACT: &'static str = "javascript-react";
pub const TYPESCRIPT_REACT: &'static str = "typescript-react";
pub const PHP: &'static str = "php";
pub const RUBY: &'static str = "ruby";
pub const PYTHON: &'static str = "python";
pub const RUST: &'static str = "rust";
pub const GO: &'static str = "go";
pub const JAVA: &'static str = "java";
pub const KOTLIN: &'static str = "kotlin";
pub const SWIFT: &'static str = "swift";
pub const SHELL: &'static str = "shell";
pub const POWERSHELL: &'static str = "powershell";
pub const PERL: &'static str = "perl";
pub const LUA: &'static str = "lua";
pub const JSON: &'static str = "json";
pub const YAML: &'static str = "yaml";
pub const XML: &'static str = "xml";
pub const CSV: &'static str = "csv";
pub const SQL: &'static str = "sql";
pub const MARKDOWN: &'static str = "markdown";
pub const TEX: &'static str = "tex";
pub const MAKEFILE: &'static str = "makefile";
pub const DOCKERFILE: &'static str = "dockerfile";
pub const ASSEMBLY: &'static str = "assembly";
pub const HASKELL: &'static str = "haskell";
pub const ERLANG: &'static str = "erlang";
pub const ELIXIR: &'static str = "elixir";
pub const OCAML: &'static str = "ocaml";
pub const FSHARP: &'static str = "fsharp";
pub const SCALA: &'static str = "scala";
pub const CLOJURE: &'static str = "clojure";
pub const GROOVY: &'static str = "groovy";
pub const FORTRAN: &'static str = "fortran";
pub const DART: &'static str = "dart";
pub const OBJECTIVE_C: &'static str = "objective-c";
pub const CSHARP: &'static str = "csharp";
pub const COBOL: &'static str = "cobol";
pub const PLANETEXT: &'static str = "planetext";
pub const TOML: &'static str = "toml";
pub const GIT_IGNORE: &'static str = "git-ignore";
pub const COMMIT_MESSAGE: &'static str = "commit-message";

/// The part of a file name after its last `'.'`; the whole name where it has none.
pub open spec fn extension_of(name: Seq<char>) -> Seq<char>
    decreases name.len(),
{
    if name.len() == 0 {
        name
    } else if name.last() == '.' {
        seq![]
    } else {
        extension_of(name.drop_last()).push(name.last())
    }
}

/// The file type named by a file extension, if the extension is known.
pub open spec fn type_of_extension(ext: Seq<char>) -> Option<Seq<char>> {
    if ext == "c"@ {
        Some(C@)
    } else if ext == "h"@ {
        Some(C_HEADER@)
    } else if ext == "cpp"@ {
        Some(CPP@)
    } else if ext == "cxx"@ {
        Some(CPP@)
    } else if ext == "cc"@ {
        Some(CPP@)
    } else if ext == "hpp"@ {
        Some(CPP_HEADER@)
    } else if ext == "hxx"@ {
        Some(CPP_HEADER@)
    } else if ext == "hh"@ {
        Some(CPP_HEADER@)
    } else if ext == "html"@ {
        Some(HTML@)
    } else if ext == "htm"@ {
        Some(HTML@)
    } else if ext == "css"@ {
        Some(CSS@)
    } else if ext == "js"@ {
        Some(JAVASCRIPT@)
    } else if ext == "ts"@ {
        Some(TYPESCRIPT@)
    } else if ext == "jsx"@ {
        Some(JAVASCRIPT_REACT@)
    } else if ext == "tsx"@ {
        Some(TYPESCRIPT_REACT@)
    } else if ext == "php"@ {
        Some(PHP@)
    } else if ext == "rb"@ {
        Some(RUBY@)
    } else if ext == "py"@ {
        Some(PYTHON@)
    } else if ext == "rs"@ {
        Some(RUST@)
    } else if ext == "go"@ {
        Some(GO@)
    } else if ext == "java"@ {
        Some(JAVA@)
    } else if ext == "kt"@ {
        Some(KOTLIN@)
    } else if ext == "kts"@ {
        Some(KOTLIN@)
    } else if ext == "swift"@ {
        Some(SWIFT@)
    } else if ext == "sh"@ {
        Some(SHELL@)
    } else if ext == "bash"@ {
        Some(SHELL@)
    } else if ext == "zsh"@ {
        Some(SHELL@)
    } else if ext == "ps1"@ {
        Some(POWERSHELL@)
    } else if ext == "pl"@ {
        Some(PERL@)
    } else if ext == "pm"@ {
        Some(PERL@)
    } else if ext == "lua"@ {
        Some(LUA@)
    } else if ext == "json"@ {
        Some(JSON@)
    } else if ext == "yml"@ {
        Some(YAML@)
    } else if ext == "yaml"@ {
        Some(YAML@)
    } else if ext == "xml"@ {
        Some(XML@)
    } else if ext == "csv"@ {
        Some(CSV@)
    } else if ext == "sql"@ {
        Some(SQL@)
    } else if ext == "md"@ {
        Some(MARKDOWN@)
    } else if ext == "markdown"@ {
        Some(MARKDOWN@)
    } else if ext == "tex"@ {
        Some(TEX@)
    } else if ext == "asm"@ {
        Some(ASSEMBLY@)
    } else if ext == "s"@ {
        Some(ASSEMBLY@)
    } else if ext == "hs"@ {
        Some(HASKELL@)
    } else if ext == "lhs"@ {
        Some(HASKELL@)
    } else if ext == "erl"@ {
        Some(ERLANG@)
    } else if ext == "hrl"@ {
        Some(ERLANG@)
    } else if ext == "ex"@ {
        Some(ELIXIR@)
    } else if ext == "exs"@ {
        Some(ELIXIR@)
    } else if ext == "ml"@ {
        Some(OCAML@)
    } else if ext == "mli"@ {
        Some(OCAML@)
    } else if ext == "fs"@ {
        Some(FSHARP@)
    } else if ext == "fsi"@ {
        Some(FSHARP@)
    } else if ext == "fsx"@ {
        Some(FSHARP@)
    } else if ext == "scala"@ {
        Some(SCALA@)
    } else if ext == "sc"@ {
        Some(SCALA@)
    } else if ext == "clj"@ {
        Some(CLOJURE@)
    } else if ext == "cljs"@ {
        Some(CLOJURE@)
    } else if ext == "cljc"@ {
        Some(CLOJURE@)
    } else if ext == "edn"@ {
        Some(CLOJURE@)
    } else if ext == "groovy"@ {
        Some(GROOVY@)
    } else if ext == "gvy"@ {
        Some(GROOVY@)
    } else if ext == "gy"@ {
        Some(GROOVY@)
    } else if ext == "gsh"@ {
        Some(GROOVY@)
    } else if ext == "f"@ {
        Some(FORTRAN@)
    } else if ext == "for"@ {
        Some(FORTRAN@)
    } else if ext == "f90"@ {
        Some(FORTRAN@)
    } else if ext == "f95"@ {
        Some(FORTRAN@)
    } else if ext == "dart"@ {
        Some(DART@)
    } else if ext == "m"@ {
        Some(OBJECTIVE_C@)
    } else if ext == "mm"@ {
        Some(OBJECTIVE_C@)
    } else if ext == "cs"@ {
        Some(CSHARP@)
    } else if ext == "cbl"@ {
        Some(COBOL@)
    } else if ext == "cob"@ {
        Some(COBOL@)
    } else if ext == "toml"@ {
        Some(TOML@)
    } else {
        None
    }
}

/// The file type of a file name: a few names are known as they are, others by their
/// extension, and the rest are plain text.
pub open spec fn file_type_of(name: Seq<char>) -> Seq<char> {
    if name == "Makefile"@ {
        MAKEFILE@
    } else if name == "Dockerfile"@ {
        DOCKERFILE@
    } else if name == ".gitignore"@ {
        GIT_IGNORE@
    } else if name == "COMMIT_EDITMSG"@ {
        COMMIT_MESSAGE@
    } else {
        match type_of_extension(extension_of(name)) {
            Some(t) => t,
            None => PLANETEXT@,
        }
    }
}

/// Whether `chars` holds exactly the characters of `lit`.
pub fn chars_eq_str(chars: &Vec<char>, lit: &str) -> (r: bool)
    ensures
        r == (chars@ == lit@),
{
    let n = lit.unicode_len();
    if chars.len() != n {
        return false;
    }
    let mut i: usize = 0;
    while i < n
        invariant
            0 <= i <= n,
            n == lit@.len(),
            chars@.len() == n,
            forall|k: int| 0 <= k < i ==> chars@[k] == lit@[k],
        decreases n - i,
    {
        if chars[i] != lit.get_char(i) {
            return false;
        }
        i = i + 1;
    }
    assert(chars@ =~= lit@);
    true
}

/// The characters after the last `'.'` of `name`, or all of them where there is none.
pub fn extension_chars(name: &Vec<char>) -> (r: Vec<char>)
    ensures
        r@ == extension_of(name@),
{
    let mut start = name.len();
    assert(name@.take(start as int) =~= name@);
    assert(name@.skip(start as int) =~= Seq::<char>::empty());
    assert(extension_of(name@) =~= extension_of(name@.take(start as int)) + name@.skip(start as int));
    while start > 0 && name[start - 1] != '.'
        invariant
            start <= name@.len(),
            extension_of(name@) == extension_of(name@.take(start as int)) + name@.skip(start as int),
        decreases start,
    {
        proof {
            let t = name@.take(start as int);
            assert(t.drop_last() =~= name@.take(start - 1));
            assert(name@.skip(start - 1) =~= seq![t.last()] + name@.skip(start as int));
            assert(extension_of(t) == extension_of(t.drop_last()).push(t.last()));
            assert(extension_of(t.drop_last()).push(t.last()) + name@.skip(start as int)
                =~= extension_of(t.drop_last()) + name@.skip(start - 1));
        }
        start = start - 1;
    }
    proof {
        let t = name@.take(start as int);
        if start > 0 {
            assert(t.last() == '.');
        } else {
            assert(t =~= Seq::<char>::empty());
        }
        assert(extension_of(t) =~= Seq::<char>::empty());
        assert(extension_of(name@) =~= name@.skip(start as int));
    }
    let mut out: Vec<char> = Vec::new();
    let mut i = start;
    while i < name.len()
        invariant
            start <= i <= name@.len(),
            out@ == name@.subrange(start as int, i as int),
        decreases name@.len() - i,
    {
        out.push(name[i]);
        assert(out@ =~= name@.subrange(start as int, i + 1));
        i = i + 1;
    }
    assert(out@ =~= name@.skip(start as int));
    out
}

/// The file type of an extension, if known.
pub fn type_for_extension(ext: &Vec<char>) -> (r: Option<&'static str>)
    ensures
        match r {
            Some(t) => type_of_extension(ext@) == Some(t@),
            None => type_of_extension(ext@) is None,
        },
{
    if chars_eq_str(ext, "c") {
        Some(C)
    } else if chars_eq_str(ext, "h") {
        Some(C_HEADER)
    } else if chars_eq_str(ext, "cpp") {
        Some(CPP)
    } else if chars_eq_str(ext, "cxx") {
        Some(CPP)
    } else if chars_eq_str(ext, "cc") {
        Some(CPP)
    } else if chars_eq_str(ext, "hpp") {
        Some(CPP_HEADER)
    } else if chars_eq_str(ext, "hxx") {
        Some(CPP_HEADER)
    } else if chars_eq_str(ext, "hh") {
        Some(CPP_HEADER)
    } else if chars_eq_str(ext, "html") {
        Some(HTML)
    } else if chars_eq_str(ext, "htm") {
        Some(HTML)
    } else if chars_eq_str(ext, "css") {
        Some(CSS)
    } else if chars_eq_str(ext, "js") {
        Some(JAVASCRIPT)
    } else if chars_eq_str(ext, "ts") {
        Some(TYPESCRIPT)
    } else if chars_eq_str(ext, "jsx") {
        Some(JAVASCRIPT_REACT)
    } else if chars_eq_str(ext, "tsx") {
        Some(TYPESCRIPT_REACT)
    } else if chars_eq_str(ext, "php") {
        Some(PHP)
    } else if chars_eq_str(ext, "rb") {
        Some(RUBY)
    } else if chars_eq_str(ext, "py") {
        Some(PYTHON)
    } else if chars_eq_str(ext, "rs") {
        Some(RUST)
    } else if chars_eq_str(ext, "go") {
        Some(GO)
    } else if chars_eq_str(ext, "java") {
        Some(JAVA)
    } else if chars_eq_str(ext, "kt") {
        Some(KOTLIN)
    } else if chars_eq_str(ext, "kts") {
        Some(KOTLIN)
    } else if chars_eq_str(ext, "swift") {
        Some(SWIFT)
    } else if chars_eq_str(ext, "sh") {
        Some(SHELL)
    } else if chars_eq_str(ext, "bash") {
        Some(SHELL)
    } else if chars_eq_str(ext, "zsh") {
        Some(SHELL)
    } else if chars_eq_str(ext, "ps1") {
        Some(POWERSHELL)
    } else if chars_eq_str(ext, "pl") {
        Some(PERL)
    } else if chars_eq_str(ext, "pm") {
        Some(PERL)
    } else if chars_eq_str(ext, "lua") {
        Some(LUA)
    } else if chars_eq_str(ext, "json") {
        Some(JSON)
    } else if chars_eq_str(ext, "yml") {
        Some(YAML)
    } else if chars_eq_str(ext, "yaml") {
        Some(YAML)
    } else if chars_eq_str(ext, "xml") {
        Some(XML)
    } else if chars_eq_str(ext, "csv") {
        Some(CSV)
    } else if chars_eq_str(ext, "sql") {
        Some(SQL)
    } else if chars_eq_str(ext, "md") {
        Some(MARKDOWN)
    } else if chars_eq_str(ext, "markdown") {
        Some(MARKDOWN)
    } else if chars_eq_str(ext, "tex") {
        Some(TEX)
    } else if chars_eq_str(ext, "asm") {
        Some(ASSEMBLY)
    } else if chars_eq_str(ext, "s") {
        Some(ASSEMBLY)
    } else if chars_eq_str(ext, "hs") {
        Some(HASKELL)
    } else if chars_eq_str(ext, "lhs") {
        Some(HASKELL)
    } else if chars_eq_str(ext, "erl") {
        Some(ERLANG)
    } else if chars_eq_str(ext, "hrl") {
        Some(ERLANG)
    } else if chars_eq_str(ext, "ex") {
        Some(ELIXIR)
    } else if chars_eq_str(ext, "exs") {
        Some(ELIXIR)
    } else if chars_eq_str(ext, "ml") {
        Some(OCAML)
    } else if chars_eq_str(ext, "mli") {
        Some(OCAML)
    } else if chars_eq_str(ext, "fs") {
        Some(FSHARP)
    } else if chars_eq_str(ext, "fsi") {
        Some(FSHARP)
    } else if chars_eq_str(ext, "fsx") {
        Some(FSHARP)
    } else if chars_eq_str(ext, "scala") {
        Some(SCALA)
    } else if chars_eq_str(ext, "sc") {
        Some(SCALA)
    } else if chars_eq_str(ext, "clj") {
        Some(CLOJURE)
    } else if chars_eq_str(ext, "cljs") {
        Some(CLOJURE)
    } else if chars_eq_str(ext, "cljc") {
        Some(CLOJURE)
    } else if chars_eq_str(ext, "edn") {
        Some(CLOJURE)
    } else if chars_eq_str(ext, "groovy") {
        Some(GROOVY)
    } else if chars_eq_str(ext, "gvy") {
        Some(GROOVY)
    } else if chars_eq_str(ext, "gy") {
        Some(GROOVY)
    } else if chars_eq_str(ext, "gsh") {
        Some(GROOVY)
    } else if chars_eq_str(ext, "f") {
        Some(FORTRAN)
    } else if chars_eq_str(ext, "for") {
        Some(FORTRAN)
    } else if chars_eq_str(ext, "f90") {
        Some(FORTRAN)
    } else if chars_eq_str(ext, "f95") {
        Some(FORTRAN)
    } else if chars_eq_str(ext, "dart") {
        Some(DART)
    } else if chars_eq_str(ext, "m") {
        Some(OBJECTIVE_C)
    } else if chars_eq_str(ext, "mm") {
        Some(OBJECTIVE_C)
    } else if chars_eq_str(ext, "cs") {
        Some(CSHARP)
    } else if chars_eq_str(ext, "cbl") {
        Some(COBOL)
    } else if chars_eq_str(ext, "cob") {
        Some(COBOL)
    } else if chars_eq_str(ext, "toml") {
        Some(TOML)
    } else {
        None
    }
}

/// The type of a file, such as `rust` or `markdown`.
pub struct FileType {
    name: String,
}

impl View for FileType {
    type V = Seq<char>;

    closed spec fn view(&self) -> Seq<char> {
        self.name@
    }
}

impl FileType {
    pub fn new(name: &str) -> (r: Self)
        ensures
            r@ == name@,
    {
        FileType { name: String::from_str(name) }
    }

    /// The type of a file whose type is not known: plain text.
    pub fn plain() -> (r: Self)
        ensures
            r@ == PLANETEXT@,
    {
        Self::new(PLANETEXT)
    }

    /// The name of the type.
    pub fn get(&self) -> (r: String)
        ensures
            r@ == self@,
    {
        self.name.clone()
    }

    /// The type of a file by its name: `Makefile`, `Dockerfile`, `.gitignore` and
    /// `COMMIT_EDITMSG` by the whole name, other files by the part after the last `'.'`.
    pub fn file_name_to_type(file_name: String) -> (r: Self)
        ensures
            r@ == file_type_of(file_name@),
    {
        let chars = str_chars(file_name.as_str());
        let extension = extension_chars(&chars);

        if chars_eq_str(&chars, "Makefile") {
            return Self::new(MAKEFILE);
        }
        if chars_eq_str(&chars, "Dockerfile") {
            return Self::new(DOCKERFILE);
        }
        if chars_eq_str(&chars, ".gitignore") {
            return Self::new(GIT_IGNORE);
        }
        if chars_eq_str(&chars, "COMMIT_EDITMSG") {
            return Self::new(COMMIT_MESSAGE);
        }
        match type_for_extension(&extension) {
            Some(t) => Self::new(t),
            None => Self::new(PLANETEXT),
        }
    }
}


/// The extension of a name that ends in `'.'` and then `ext`, where `ext` holds no `'.'`,
/// is `ext`.
pub proof fn lemma_extension_after_dot(stem: Seq<char>, ext: Seq<char>)
    requires
        !ext.contains('.'),
    ensures
        extension_of(stem + seq!['.'] + ext) == ext,
    decreases ext.len(),
{
    let name = stem + seq!['.'] + ext;
    if ext.len() == 0 {
        assert(name.last() == '.');
    } else {
        assert(ext[ext.len() - 1] != '.') by {
            if ext[ext.len() - 1] == '.' {
                assert(ext.contains('.'));
            }
        }
        assert(!ext.drop_last().contains('.')) by {
            if ext.drop_last().contains('.') {
                let k = choose|k: int| 0 <= k < ext.drop_last().len() && ext.drop_last()[k] == '.';
                assert(ext[k] == '.');
            }
        }
        lemma_extension_after_dot(stem, ext.drop_last());
        assert(name.drop_last() =~= stem + seq!['.'] + ext.drop_last());
        assert(name.last() == ext.last());
        assert(ext.drop_last().push(ext.last()) =~= ext);
    }
}

/// A name that is a stem, a `'.'` and an extension of at most eight characters without a
/// `'.'` is none of the names whose type is known by the whole name.
pub proof fn lemma_not_special_name(stem: Seq<char>, ext: Seq<char>)
    requires
        !ext.contains('.'),
        ext.len() <= 8,
    ensures
        stem + seq!['.'] + ext != "Makefile"@,
        stem + seq!['.'] + ext != "Dockerfile"@,
        stem + seq!['.'] + ext != ".gitignore"@,
        stem + seq!['.'] + ext != "COMMIT_EDITMSG"@,
{
    let name = stem + seq!['.'] + ext;
    let k = stem.len() as int;
    assert(name[k] == '.');
    reveal_strlit("Makefile");
    reveal_strlit("Dockerfile");
    reveal_strlit(".gitignore");
    reveal_strlit("COMMIT_EDITMSG");
    assert(forall|j: int| 0 <= j < "Makefile"@.len() ==> "Makefile"@[j] != '.');
    assert(forall|j: int| 0 <= j < "Dockerfile"@.len() ==> "Dockerfile"@[j] != '.');
    assert(forall|j: int| 0 <= j < "COMMIT_EDITMSG"@.len() ==> "COMMIT_EDITMSG"@[j] != '.');
    assert(forall|j: int| 1 <= j < ".gitignore"@.len() ==> ".gitignore"@[j] != '.');
}

/// Files are typed by their extension, whatever comes before it: `.c`, `.h`, `.cpp`, `.cxx`, `.cc`, `.hpp`, `.hxx`, `.hh`, `.html`, `.htm`.
pub proof fn law_file_types_by_extension_1(stem: Seq<char>)
    ensures
        file_type_of(stem + seq!['.'] + "c"@) == "c"@,
        file_type_of(stem + seq!['.'] + "h"@) == "c-header"@,
        file_type_of(stem + seq!['.'] + "cpp"@) == "cpp"@,
        file_type_of(stem + seq!['.'] + "cxx"@) == "cpp"@,
        file_type_of(stem + seq!['.'] + "cc"@) == "cpp"@,
        file_type_of(stem + seq!['.'] + "hpp"@) == "cpp-header"@,
        file_type_of(stem + seq!['.'] + "hxx"@) == "cpp-header"@,
        file_type_of(stem + seq!['.'] + "hh"@) == "cpp-header"@,
        file_type_of(stem + seq!['.'] + "html"@) == "html"@,
        file_type_of(stem + seq!['.'] + "htm"@) == "html"@,
{
    reveal_strlit("c");
    reveal_strlit("h");
    reveal_strlit("cpp");
    reveal_strlit("cxx");
    reveal_strlit("cc");
    reveal_strlit("hpp");
    reveal_strlit("hxx");
    reveal_strlit("hh");
    reveal_strlit("html");
    reveal_strlit("htm");
    reveal_strlit("c");
    reveal_strlit("cpp");
    reveal_strlit("cpp-header");
    reveal_strlit("c-header");
    reveal_strlit("html");
    assert(forall|j: int| 0 <= j < "c"@.len() ==> "c"@[j] != '.');
    lemma_extension_after_dot(stem, "c"@);
    lemma_not_special_name(stem, "c"@);
    assert(forall|j: int| 0 <= j < "h"@.len() ==> "h"@[j] != '.');
    lemma_extension_after_dot(stem, "h"@);
    lemma_not_special_name(stem, "h"@);
    assert(forall|j: int| 0 <= j < "cpp"@.len() ==> "cpp"@[j] != '.');
    lemma_extension_after_dot(stem, "cpp"@);
    lemma_not_special_name(stem, "cpp"@);
    assert(forall|j: int| 0 <= j < "cxx"@.len() ==> "cxx"@[j] != '.');
    lemma_extension_after_dot(stem, "cxx"@);
    lemma_not_special_name(stem, "cxx"@);
    assert(forall|j: int| 0 <= j < "cc"@.len() ==> "cc"@[j] != '.');
    lemma_extension_after_dot(stem, "cc"@);
    lemma_not_special_name(stem, "cc"@);
    assert(forall|j: int| 0 <= j < "hpp"@.len() ==> "hpp"@[j] != '.');
    lemma_extension_after_dot(stem, "hpp"@);
    lemma_not_special_name(stem, "hpp"@);
    assert(forall|j: int| 0 <= j < "hxx"@.len() ==> "hxx"@[j] != '.');
    lemma_extension_after_dot(stem, "hxx"@);
    lemma_not_special_name(stem, "hxx"@);
    assert(forall|j: int| 0 <= j < "hh"@.len() ==> "hh"@[j] != '.');
    lemma_extension_after_dot(stem, "hh"@);
    lemma_not_special_name(stem, "hh"@);
    assert(forall|j: int| 0 <= j < "html"@.len() ==> "html"@[j] != '.');
    lemma_extension_after_dot(stem, "html"@);
    lemma_not_special_name(stem, "html"@);
    assert(forall|j: int| 0 <= j < "htm"@.len() ==> "htm"@[j] != '.');
    lemma_extension_after_dot(stem, "htm"@);
    lemma_not_special_name(stem, "htm"@);
    assert("h"@[0] != "c"@[0]);
    assert("cxx"@[1] != "cpp"@[1]);
    assert("hpp"@[0] != "cpp"@[0]);
    assert("hpp"@[0] != "cxx"@[0]);
    assert("hxx"@[0] != "cpp"@[0]);
    assert("hxx"@[0] != "cxx"@[0]);
    assert("hxx"@[1] != "hpp"@[1]);
    assert("hh"@[0] != "cc"@[0]);
    assert("htm"@[0] != "cpp"@[0]);
    assert("htm"@[0] != "cxx"@[0]);
    assert("htm"@[1] != "hpp"@[1]);
    assert("htm"@[1] != "hxx"@[1]);
}

/// Files are typed by their extension, whatever comes before it: `.css`, `.js`, `.ts`, `.jsx`, `.tsx`, `.php`, `.rb`, `.py`, `.rs`, `.go`.
pub proof fn law_file_types_by_extension_2(stem: Seq<char>)
    ensures
        file_type_of(stem + seq!['.'] + "css"@) == "css"@,
        file_type_of(stem + seq!['.'] + "js"@) == "javascript"@,
        file_type_of(stem + seq!['.'] + "ts"@) == "typescript"@,
        file_type_of(stem + seq!['.'] + "jsx"@) == "javascript-react"@,
        file_type_of(stem + seq!['.'] + "tsx"@) == "typescript-react"@,
        file_type_of(stem + seq!['.'] + "php"@) == "php"@,
        file_type_of(stem + seq!['.'] + "rb"@) == "ruby"@,
        file_type_of(stem + seq!['.'] + "py"@) == "python"@,
        file_type_of(stem + seq!['.'] + "rs"@) == "rust"@,
        file_type_of(stem + seq!['.'] + "go"@) == "go"@,
{
    reveal_strlit("c");
    reveal_strlit("h");
    reveal_strlit("cpp");
    reveal_strlit("cxx");
    reveal_strlit("cc");
    reveal_strlit("hpp");
    reveal_strlit("hxx");
    reveal_strlit("hh");
    reveal_strlit("html");
    reveal_strlit("htm");
    reveal_strlit("css");
    reveal_strlit("js");
    reveal_strlit("ts");
    reveal_strlit("jsx");
    reveal_strlit("tsx");
    reveal_strlit("php");
    reveal_strlit("rb");
    reveal_strlit("py");
    reveal_strlit("rs");
    reveal_strlit("go");
    reveal_strlit("css");
    reveal_strlit("go");
    reveal_strlit("javascript");
    reveal_strlit("javascript-react");
    reveal_strlit("php");
    reveal_strlit("python");
    reveal_strlit("ruby");
    reveal_strlit("rust");
    reveal_strlit("typescript");
    reveal_strlit("typescript-react");
    assert(forall|j: int| 0 <= j < "css"@.len() ==> "css"@[j] != '.');
    lemma_extension_after_dot(stem, "css"@);
    lemma_not_special_name(stem, "css"@);
    assert(forall|j: int| 0 <= j < "js"@.len() ==> "js"@[j] != '.');
    lemma_extension_after_dot(stem, "js"@);
    lemma_not_special_name(stem, "js"@);
    assert(forall|j: int| 0 <= j < "ts"@.len() ==> "ts"@[j] != '.');
    lemma_extension_after_dot(stem, "ts"@);
    lemma_not_special_name(stem, "ts"@);
    assert(forall|j: int| 0 <= j < "jsx"@.len() ==> "jsx"@[j] != '.');
    lemma_extension_after_dot(stem, "jsx"@);
    lemma_not_special_name(stem, "jsx"@);
    assert(forall|j: int| 0 <= j < "tsx"@.len() ==> "tsx"@[j] != '.');
    lemma_extension_after_dot(stem, "tsx"@);
    lemma_not_special_name(stem, "tsx"@);
    assert(forall|j: int| 0 <= j < "php"@.len() ==> "php"@[j] != '.');
    lemma_extension_after_dot(stem, "php"@);
    lemma_not_special_name(stem, "php"@);
    assert(forall|j: int| 0 <= j < "rb"@.len() ==> "rb"@[j] != '.');
    lemma_extension_after_dot(stem, "rb"@);
    lemma_not_special_name(stem, "rb"@);
    assert(forall|j: int| 0 <= j < "py"@.len() ==> "py"@[j] != '.');
    lemma_extension_after_dot(stem, "py"@);
    lemma_not_special_name(stem, "py"@);
    assert(forall|j: int| 0 <= j < "rs"@.len() ==> "rs"@[j] != '.');
    lemma_extension_after_dot(stem, "rs"@);
    lemma_not_special_name(stem, "rs"@);
    assert(forall|j: int| 0 <= j < "go"@.len() ==> "go"@[j] != '.');
    lemma_extension_after_dot(stem, "go"@);
    lemma_not_special_name(stem, "go"@);
    assert("css"@[1] != "cpp"@[1]);
    assert("css"@[1] != "cxx"@[1]);
    assert("css"@[0] != "hpp"@[0]);
    assert("css"@[0] != "hxx"@[0]);
    assert("css"@[0] != "htm"@[0]);
    assert("js"@[0] != "cc"@[0]);
    assert("js"@[0] != "hh"@[0]);
    assert("ts"@[0] != "cc"@[0]);
    assert("ts"@[0] != "hh"@[0]);
    assert("ts"@[0] != "js"@[0]);
    assert("jsx"@[0] != "cpp"@[0]);
    assert("jsx"@[0] != "cxx"@[0]);
    assert("jsx"@[0] != "hpp"@[0]);
    assert("jsx"@[0] != "hxx"@[0]);
    assert("jsx"@[0] != "htm"@[0]);
    assert("jsx"@[0] != "css"@[0]);
    assert("tsx"@[0] != "cpp"@[0]);
    assert("tsx"@[0] != "cxx"@[0]);
    assert("tsx"@[0] != "hpp"@[0]);
    assert("tsx"@[0] != "hxx"@[0]);
    assert("tsx"@[0] != "htm"@[0]);
    assert("tsx"@[0] != "css"@[0]);
    assert("tsx"@[0] != "jsx"@[0]);
    assert("php"@[0] != "cpp"@[0]);
    assert("php"@[0] != "cxx"@[0]);
    assert("php"@[0] != "hpp"@[0]);
    assert("php"@[0] != "hxx"@[0]);
    assert("php"@[0] != "htm"@[0]);
    assert("php"@[0] != "css"@[0]);
    assert("php"@[0] != "jsx"@[0]);
    assert("php"@[0] != "tsx"@[0]);
    assert("rb"@[0] != "cc"@[0]);
    assert("rb"@[0] != "hh"@[0]);
    assert("rb"@[0] != "js"@[0]);
    assert("rb"@[0] != "ts"@[0]);
    assert("py"@[0] != "cc"@[0]);
    assert("py"@[0] != "hh"@[0]);
    assert("py"@[0] != "js"@[0]);
    assert("py"@[0] != "ts"@[0]);
    assert("py"@[0] != "rb"@[0]);
    assert("rs"@[0] != "cc"@[0]);
    assert("rs"@[0] != "hh"@[0]);
    assert("rs"@[0] != "js"@[0]);
    assert("rs"@[0] != "ts"@[0]);
    assert("rs"@[1] != "rb"@[1]);
    assert("rs"@[0] != "py"@[0]);
    assert("go"@[0] != "cc"@[0]);
    assert("go"@[0] != "hh"@[0]);
    assert("go"@[0] != "js"@[0]);
    assert("go"@[0] != "ts"@[0]);
    assert("go"@[0] != "rb"@[0]);
    assert("go"@[0] != "py"@[0]);
    assert("go"@[0] != "rs"@[0]);
}

/// Files are typed by their extension, whatever comes before it: `.java`, `.kt`, `.kts`, `.swift`, `.sh`, `.bash`, `.zsh`, `.ps1`, `.pl`, `.pm`.
pub proof fn law_file_types_by_extension_3(stem: Seq<char>)
    ensures
        file_type_of(stem + seq!['.'] + "java"@) == "java"@,
        file_type_of(stem + seq!['.'] + "kt"@) == "kotlin"@,
        file_type_of(stem + seq!['.'] + "kts"@) == "kotlin"@,
        file_type_of(stem + seq!['.'] + "swift"@) == "swift"@,
        file_type_of(stem + seq!['.'] + "sh"@) == "shell"@,
        file_type_of(stem + seq!['.'] + "bash"@) == "shell"@,
        file_type_of(stem + seq!['.'] + "zsh"@) == "shell"@,
        file_type_of(stem + seq!['.'] + "ps1"@) == "powershell"@,
        file_type_of(stem + seq!['.'] + "pl"@) == "perl"@,
        file_type_of(stem + seq!['.'] + "pm"@) == "perl"@,
{
    reveal_strlit("c");
    reveal_strlit("h");
    reveal_strlit("cpp");
    reveal_strlit("cxx");
    reveal_strlit("cc");
    reveal_strlit("hpp");
    reveal_strlit("hxx");
    reveal_strlit("hh");
    reveal_strlit("html");
    reveal_strlit("htm");
    reveal_strlit("css");
    reveal_strlit("js");
    reveal_strlit("ts");
    reveal_strlit("jsx");
    reveal_strlit("tsx");
    reveal_strlit("php");
    reveal_strlit("rb");
    reveal_strlit("py");
    reveal_strlit("rs");
    reveal_strlit("go");
    reveal_strlit("java");
    reveal_strlit("kt");
    reveal_strlit("kts");
    reveal_strlit("swift");
    reveal_strlit("sh");
    reveal_strlit("bash");
    reveal_strlit("zsh");
    reveal_strlit("ps1");
    reveal_strlit("pl");
    reveal_strlit("pm");
    reveal_strlit("java");
    reveal_strlit("kotlin");
    reveal_strlit("perl");
    reveal_strlit("powershell");
    reveal_strlit("shell");
    reveal_strlit("swift");
    assert(forall|j: int| 0 <= j < "java"@.len() ==> "java"@[j] != '.');
    lemma_extension_after_dot(stem, "java"@);
    lemma_not_special_name(stem, "java"@);
    assert(forall|j: int| 0 <= j < "kt"@.len() ==> "kt"@[j] != '.');
    lemma_extension_after_dot(stem, "kt"@);
    lemma_not_special_name(stem, "kt"@);
    assert(forall|j: int| 0 <= j < "kts"@.len() ==> "kts"@[j] != '.');
    lemma_extension_after_dot(stem, "kts"@);
    lemma_not_special_name(stem, "kts"@);
    assert(forall|j: int| 0 <= j < "swift"@.len() ==> "swift"@[j] != '.');
    lemma_extension_after_dot(stem, "swift"@);
    lemma_not_special_name(stem, "swift"@);
    assert(forall|j: int| 0 <= j < "sh"@.len() ==> "sh"@[j] != '.');
    lemma_extension_after_dot(stem, "sh"@);
    lemma_not_special_name(stem, "sh"@);
    assert(forall|j: int| 0 <= j < "bash"@.len() ==> "bash"@[j] != '.');
    lemma_extension_after_dot(stem, "bash"@);
    lemma_not_special_name(stem, "bash"@);
    assert(forall|j: int| 0 <= j < "zsh"@.len() ==> "zsh"@[j] != '.');
    lemma_extension_after_dot(stem, "zsh"@);
    lemma_not_special_name(stem, "zsh"@);
    assert(forall|j: int| 0 <= j < "ps1"@.len() ==> "ps1"@[j] != '.');
    lemma_extension_after_dot(stem, "ps1"@);
    lemma_not_special_name(stem, "ps1"@);
    assert(forall|j: int| 0 <= j < "pl"@.len() ==> "pl"@[j] != '.');
    lemma_extension_after_dot(stem, "pl"@);
    lemma_not_special_name(stem, "pl"@);
    assert(forall|j: int| 0 <= j < "pm"@.len() ==> "pm"@[j] != '.');
    lemma_extension_after_dot(stem, "pm"@);
    lemma_not_special_name(stem, "pm"@);
    assert("java"@[0] != "html"@[0]);
    assert("kt"@[0] != "cc"@[0]);
    assert("kt"@[0] != "hh"@[0]);
    assert("kt"@[0] != "js"@[0]);
    assert("kt"@[0] != "ts"@[0]);
    assert("kt"@[0] != "rb"@[0]);
    assert("kt"@[0] != "py"@[0]);
    assert("kt"@[0] != "rs"@[0]);
    assert("kt"@[0] != "go"@[0]);
    assert("kts"@[0] != "cpp"@[0]);
    assert("kts"@[0] != "cxx"@[0]);
    assert("kts"@[0] != "hpp"@[0]);
    assert("kts"@[0] != "hxx"@[0]);
    assert("kts"@[0] != "htm"@[0]);
    assert("kts"@[0] != "css"@[0]);
    assert("kts"@[0] != "jsx"@[0]);
    assert("kts"@[0] != "tsx"@[0]);
    assert("kts"@[0] != "php"@[0]);
    assert("sh"@[0] != "cc"@[0]);
    assert("sh"@[0] != "hh"@[0]);
    assert("sh"@[0] != "js"@[0]);
    assert("sh"@[0] != "ts"@[0]);
    assert("sh"@[0] != "rb"@[0]);
    assert("sh"@[0] != "py"@[0]);
    assert("sh"@[0] != "rs"@[0]);
    assert("sh"@[0] != "go"@[0]);
    assert("sh"@[0] != "kt"@[0]);
    assert("bash"@[0] != "html"@[0]);
    assert("bash"@[0] != "java"@[0]);
    assert("zsh"@[0] != "cpp"@[0]);
    assert("zsh"@[0] != "cxx"@[0]);
    assert("zsh"@[0] != "hpp"@[0]);
    assert("zsh"@[0] != "hxx"@[0]);
    assert("zsh"@[0] != "htm"@[0]);
    assert("zsh"@[0] != "css"@[0]);
    assert("zsh"@[0] != "jsx"@[0]);
    assert("zsh"@[0] != "tsx"@[0]);
    assert("zsh"@[0] != "php"@[0]);
    assert("zsh"@[0] != "kts"@[0]);
    assert("ps1"@[0] != "cpp"@[0]);
    assert("ps1"@[0] != "cxx"@[0]);
    assert("ps1"@[0] != "hpp"@[0]);
    assert("ps1"@[0] != "hxx"@[0]);
    assert("ps1"@[0] != "htm"@[0]);
    assert("ps1"@[0] != "css"@[0]);
    assert("ps1"@[0] != "jsx"@[0]);
    assert("ps1"@[0] != "tsx"@[0]);
    assert("ps1"@[1] != "php"@[1]);
    assert("ps1"@[0] != "kts"@[0]);
    assert("ps1"@[0] != "zsh"@[0]);
    assert("pl"@[0] != "cc"@[0]);
    assert("pl"@[0] != "hh"@[0]);
    assert("pl"@[0] != "js"@[0]);
    assert("pl"@[0] != "ts"@[0]);
    assert("pl"@[0] != "rb"@[0]);
    assert("pl"@[1] != "py"@[1]);
    assert("pl"@[0] != "rs"@[0]);
    assert("pl"@[0] != "go"@[0]);
    assert("pl"@[0] != "kt"@[0]);
    assert("pl"@[0] != "sh"@[0]);
    assert("pm"@[0] != "cc"@[0]);
    assert("pm"@[0] != "hh"@[0]);
    assert("pm"@[0] != "js"@[0]);
    assert("pm"@[0] != "ts"@[0]);
    assert("pm"@[0] != "rb"@[0]);
    assert("pm"@[1] != "py"@[1]);
    assert("pm"@[0] != "rs"@[0]);
    assert("pm"@[0] != "go"@[0]);
    assert("pm"@[0] != "kt"@[0]);
    assert("pm"@[0] != "sh"@[0]);
    assert("pm"@[1] != "pl"@[1]);
}

/// Files are typed by their extension, whatever comes before it: `.lua`, `.json`, `.yml`, `.yaml`, `.xml`, `.csv`, `.sql`, `.md`, `.markdown`, `.tex`.
pub proof fn law_file_types_by_extension_4(stem: Seq<char>)
    ensures
        file_type_of(stem + seq!['.'] + "lua"@) == "lua"@,
        file_type_of(stem + seq!['.'] + "json"@) == "json"@,
        file_type_of(stem + seq!['.'] + "yml"@) == "yaml"@,
        file_type_of(stem + seq!['.'] + "yaml"@) == "yaml"@,
        file_type_of(stem + seq!['.'] + "xml"@) == "xml"@,
        file_type_of(stem + seq!['.'] + "csv"@) == "csv"@,
        file_type_of(stem + seq!['.'] + "sql"@) == "sql"@,
        file_type_of(stem + seq!['.'] + "md"@) == "markdown"@,
        file_type_of(stem + seq!['.'] + "markdown"@) == "markdown"@,
        file_type_of(stem + seq!['.'] + "tex"@) == "tex"@,
{
    reveal_strlit("c");
    reveal_strlit("h");
    reveal_strlit("cpp");
    reveal_strlit("cxx");
    reveal_strlit("cc");
    reveal_strlit("hpp");
    reveal_strlit("hxx");
    reveal_strlit("hh");
    reveal_strlit("html");
    reveal_strlit("htm");
    reveal_strlit("css");
    reveal_strlit("js");
    reveal_strlit("ts");
    reveal_strlit("jsx");
    reveal_strlit("tsx");
    reveal_strlit("php");
    reveal_strlit("rb");
    reveal_strlit("py");
    reveal_strlit("rs");
    reveal_strlit("go");
    reveal_strlit("java");
    reveal_strlit("kt");
    reveal_strlit("kts");
    reveal_strlit("swift");
    reveal_strlit("sh");
    reveal_strlit("bash");
    reveal_strlit("zsh");
    reveal_strlit("ps1");
    reveal_strlit("pl");
    reveal_strlit("pm");
    reveal_strlit("lua");
    reveal_strlit("json");
    reveal_strlit("yml");
    reveal_strlit("yaml");
    reveal_strlit("xml");
    reveal_strlit("csv");
    reveal_strlit("sql");
    reveal_strlit("md");
    reveal_strlit("markdown");
    reveal_strlit("tex");
    reveal_strlit("csv");
    reveal_strlit("json");
    reveal_strlit("lua");
    reveal_strlit("markdown");
    reveal_strlit("sql");
    reveal_strlit("tex");
    reveal_strlit("xml");
    reveal_strlit("yaml");
    assert(forall|j: int| 0 <= j < "lua"@.len() ==> "lua"@[j] != '.');
    lemma_extension_after_dot(stem, "lua"@);
    lemma_not_special_name(stem, "lua"@);
    assert(forall|j: int| 0 <= j < "json"@.len() ==> "json"@[j] != '.');
    lemma_extension_after_dot(stem, "json"@);
    lemma_not_special_name(stem, "json"@);
    assert(forall|j: int| 0 <= j < "yml"@.len() ==> "yml"@[j] != '.');
    lemma_extension_after_dot(stem, "yml"@);
    lemma_not_special_name(stem, "yml"@);
    assert(forall|j: int| 0 <= j < "yaml"@.len() ==> "yaml"@[j] != '.');
    lemma_extension_after_dot(stem, "yaml"@);
    lemma_not_special_name(stem, "yaml"@);
    assert(forall|j: int| 0 <= j < "xml"@.len() ==> "xml"@[j] != '.');
    lemma_extension_after_dot(stem, "xml"@);
    lemma_not_special_name(stem, "xml"@);
    assert(forall|j: int| 0 <= j < "csv"@.len() ==> "csv"@[j] != '.');
    lemma_extension_after_dot(stem, "csv"@);
    lemma_not_special_name(stem, "csv"@);
    assert(forall|j: int| 0 <= j < "sql"@.len() ==> "sql"@[j] != '.');
    lemma_extension_after_dot(stem, "sql"@);
    lemma_not_special_name(stem, "sql"@);
    assert(forall|j: int| 0 <= j < "md"@.len() ==> "md"@[j] != '.');
    lemma_extension_after_dot(stem, "md"@);
    lemma_not_special_name(stem, "md"@);
    assert(forall|j: int| 0 <= j < "markdown"@.len() ==> "markdown"@[j] != '.');
    lemma_extension_after_dot(stem, "markdown"@);
    lemma_not_special_name(stem, "markdown"@);
    assert(forall|j: int| 0 <= j < "tex"@.len() ==> "tex"@[j] != '.');
    lemma_extension_after_dot(stem, "tex"@);
    lemma_not_special_name(stem, "tex"@);
    assert("lua"@[0] != "cpp"@[0]);
    assert("lua"@[0] != "cxx"@[0]);
    assert("lua"@[0] != "hpp"@[0]);
    assert("lua"@[0] != "hxx"@[0]);
    assert("lua"@[0] != "htm"@[0]);
    assert("lua"@[0] != "css"@[0]);
    assert("lua"@[0] != "jsx"@[0]);
    assert("lua"@[0] != "tsx"@[0]);
    assert("lua"@[0] != "php"@[0]);
    assert("lua"@[0] != "kts"@[0]);
    assert("lua"@[0] != "zsh"@[0]);
    assert("lua"@[0] != "ps1"@[0]);
    assert("json"@[0] != "html"@[0]);
    assert("json"@[1] != "java"@[1]);
    assert("json"@[0] != "bash"@[0]);
    assert("yml"@[0] != "cpp"@[0]);
    assert("yml"@[0] != "cxx"@[0]);
    assert("yml"@[0] != "hpp"@[0]);
    assert("yml"@[0] != "hxx"@[0]);
    assert("yml"@[0] != "htm"@[0]);
    assert("yml"@[0] != "css"@[0]);
    assert("yml"@[0] != "jsx"@[0]);
    assert("yml"@[0] != "tsx"@[0]);
    assert("yml"@[0] != "php"@[0]);
    assert("yml"@[0] != "kts"@[0]);
    assert("yml"@[0] != "zsh"@[0]);
    assert("yml"@[0] != "ps1"@[0]);
    assert("yml"@[0] != "lua"@[0]);
    assert("yaml"@[0] != "html"@[0]);
    assert("yaml"@[0] != "java"@[0]);
    assert("yaml"@[0] != "bash"@[0]);
    assert("yaml"@[0] != "json"@[0]);
    assert("xml"@[0] != "cpp"@[0]);
    assert("xml"@[0] != "cxx"@[0]);
    assert("xml"@[0] != "hpp"@[0]);
    assert("xml"@[0] != "hxx"@[0]);
    assert("xml"@[0] != "htm"@[0]);
    assert("xml"@[0] != "css"@[0]);
    assert("xml"@[0] != "jsx"@[0]);
    assert("xml"@[0] != "tsx"@[0]);
    assert("xml"@[0] != "php"@[0]);
    assert("xml"@[0] != "kts"@[0]);
    assert("xml"@[0] != "zsh"@[0]);
    assert("xml"@[0] != "ps1"@[0]);
    assert("xml"@[0] != "lua"@[0]);
    assert("xml"@[0] != "yml"@[0]);
    assert("csv"@[1] != "cpp"@[1]);
    assert("csv"@[1] != "cxx"@[1]);
    assert("csv"@[0] != "hpp"@[0]);
    assert("csv"@[0] != "hxx"@[0]);
    assert("csv"@[0] != "htm"@[0]);
    assert("csv"@[2] != "css"@[2]);
    assert("csv"@[0] != "jsx"@[0]);
    assert("csv"@[0] != "tsx"@[0]);
    assert("csv"@[0] != "php"@[0]);
    assert("csv"@[0] != "kts"@[0]);
    assert("csv"@[0] != "zsh"@[0]);
    assert("csv"@[0] != "ps1"@[0]);
    assert("csv"@[0] != "lua"@[0]);
    assert("csv"@[0] != "yml"@[0]);
    assert("csv"@[0] != "xml"@[0]);
    assert("sql"@[0] != "cpp"@[0]);
    assert("sql"@[0] != "cxx"@[0]);
    assert("sql"@[0] != "hpp"@[0]);
    assert("sql"@[0] != "hxx"@[0]);
    assert("sql"@[0] != "htm"@[0]);
    assert("sql"@[0] != "css"@[0]);
    assert("sql"@[0] != "jsx"@[0]);
    assert("sql"@[0] != "tsx"@[0]);
    assert("sql"@[0] != "php"@[0]);
    assert("sql"@[0] != "kts"@[0]);
    assert("sql"@[0] != "zsh"@[0]);
    assert("sql"@[0] != "ps1"@[0]);
    assert("sql"@[0] != "lua"@[0]);
    assert("sql"@[0] != "yml"@[0]);
    assert("sql"@[0] != "xml"@[0]);
    assert("sql"@[0] != "csv"@[0]);
    assert("md"@[0] != "cc"@[0]);
    assert("md"@[0] != "hh"@[0]);
    assert("md"@[0] != "js"@[0]);
    assert("md"@[0] != "ts"@[0]);
    assert("md"@[0] != "rb"@[0]);
    assert("md"@[0] != "py"@[0]);
    assert("md"@[0] != "rs"@[0]);
    assert("md"@[0] != "go"@[0]);
    assert("md"@[0] != "kt"@[0]);
    assert("md"@[0] != "sh"@[0]);
    assert("md"@[0] != "pl"@[0]);
    assert("md"@[0] != "pm"@[0]);
    assert("tex"@[0] != "cpp"@[0]);
    assert("tex"@[0] != "cxx"@[0]);
    assert("tex"@[0] != "hpp"@[0]);
    assert("tex"@[0] != "hxx"@[0]);
    assert("tex"@[0] != "htm"@[0]);
    assert("tex"@[0] != "css"@[0]);
    assert("tex"@[0] != "jsx"@[0]);
    assert("tex"@[1] != "tsx"@[1]);
    assert("tex"@[0] != "php"@[0]);
    assert("tex"@[0] != "kts"@[0]);
    assert("tex"@[0] != "zsh"@[0]);
    assert("tex"@[0] != "ps1"@[0]);
    assert("tex"@[0] != "lua"@[0]);
    assert("tex"@[0] != "yml"@[0]);
    assert("tex"@[0] != "xml"@[0]);
    assert("tex"@[0] != "csv"@[0]);
    assert("tex"@[0] != "sql"@[0]);
}

/// Files are typed by their extension, whatever comes before it: `.asm`, `.s`, `.hs`, `.lhs`, `.erl`, `.hrl`, `.ex`, `.exs`, `.ml`, `.mli`.
pub proof fn law_file_types_by_extension_5(stem: Seq<char>)
    ensures
        file_type_of(stem + seq!['.'] + "asm"@) == "assembly"@,
        file_type_of(stem + seq!['.'] + "s"@) == "assembly"@,
        file_type_of(stem + seq!['.'] + "hs"@) == "haskell"@,
        file_type_of(stem + seq!['.'] + "lhs"@) == "haskell"@,
        file_type_of(stem + seq!['.'] + "erl"@) == "erlang"@,
        file_type_of(stem + seq!['.'] + "hrl"@) == "erlang"@,
        file_type_of(stem + seq!['.'] + "ex"@) == "elixir"@,
        file_type_of(stem + seq!['.'] + "exs"@) == "elixir"@,
        file_type_of(stem + seq!['.'] + "ml"@) == "ocaml"@,
        file_type_of(stem + seq!['.'] + "mli"@) == "ocaml"@,
{
    reveal_strlit("c");
    reveal_strlit("h");
    reveal_strlit("cpp");
    reveal_strlit("cxx");
    reveal_strlit("cc");
    reveal_strlit("hpp");
    reveal_strlit("hxx");
    reveal_strlit("hh");
    reveal_strlit("html");
    reveal_strlit("htm");
    reveal_strlit("css");
    reveal_strlit("js");
    reveal_strlit("ts");
    reveal_strlit("jsx");
    reveal_strlit("tsx");
    reveal_strlit("php");
    reveal_strlit("rb");
    reveal_strlit("py");
    reveal_strlit("rs");
    reveal_strlit("go");
    reveal_strlit("java");
    reveal_strlit("kt");
    reveal_strlit("kts");
    reveal_strlit("swift");
    reveal_strlit("sh");
    reveal_strlit("bash");
    reveal_strlit("zsh");
    reveal_strlit("ps1");
    reveal_strlit("pl");
    reveal_strlit("pm");
    reveal_strlit("lua");
    reveal_strlit("json");
    reveal_strlit("yml");
    reveal_strlit("yaml");
    reveal_strlit("xml");
    reveal_strlit("csv");
    reveal_strlit("sql");
    reveal_strlit("md");
    reveal_strlit("markdown");
    reveal_strlit("tex");
    reveal_strlit("asm");
    reveal_strlit("s");
    reveal_strlit("hs");
    reveal_strlit("lhs");
    reveal_strlit("erl");
    reveal_strlit("hrl");
    reveal_strlit("ex");
    reveal_strlit("exs");
    reveal_strlit("ml");
    reveal_strlit("mli");
    reveal_strlit("assembly");
    reveal_strlit("elixir");
    reveal_strlit("erlang");
    reveal_strlit("haskell");
    reveal_strlit("ocaml");
    assert(forall|j: int| 0 <= j < "asm"@.len() ==> "asm"@[j] != '.');
    lemma_extension_after_dot(stem, "asm"@);
    lemma_not_special_name(stem, "asm"@);
    assert(forall|j: int| 0 <= j < "s"@.len() ==> "s"@[j] != '.');
    lemma_extension_after_dot(stem, "s"@);
    lemma_not_special_name(stem, "s"@);
    assert(forall|j: int| 0 <= j < "hs"@.len() ==> "hs"@[j] != '.');
    lemma_extension_after_dot(stem, "hs"@);
    lemma_not_special_name(stem, "hs"@);
    assert(forall|j: int| 0 <= j < "lhs"@.len() ==> "lhs"@[j] != '.');
    lemma_extension_after_dot(stem, "lhs"@);
    lemma_not_special_name(stem, "lhs"@);
    assert(forall|j: int| 0 <= j < "erl"@.len() ==> "erl"@[j] != '.');
    lemma_extension_after_dot(stem, "erl"@);
    lemma_not_special_name(stem, "erl"@);
    assert(forall|j: int| 0 <= j < "hrl"@.len() ==> "hrl"@[j] != '.');
    lemma_extension_after_dot(stem, "hrl"@);
    lemma_not_special_name(stem, "hrl"@);
    assert(forall|j: int| 0 <= j < "ex"@.len() ==> "ex"@[j] != '.');
    lemma_extension_after_dot(stem, "ex"@);
    lemma_not_special_name(stem, "ex"@);
    assert(forall|j: int| 0 <= j < "exs"@.len() ==> "exs"@[j] != '.');
    lemma_extension_after_dot(stem, "exs"@);
    lemma_not_special_name(stem, "exs"@);
    assert(forall|j: int| 0 <= j < "ml"@.len() ==> "ml"@[j] != '.');
    lemma_extension_after_dot(stem, "ml"@);
    lemma_not_special_name(stem, "ml"@);
    assert(forall|j: int| 0 <= j < "mli"@.len() ==> "mli"@[j] != '.');
    lemma_extension_after_dot(stem, "mli"@);
    lemma_not_special_name(stem, "mli"@);
    assert("asm"@[0] != "cpp"@[0]);
    assert("asm"@[0] != "cxx"@[0]);
    assert("asm"@[0] != "hpp"@[0]);
    assert("asm"@[0] != "hxx"@[0]);
    assert("asm"@[0] != "htm"@[0]);
    assert("asm"@[0] != "css"@[0]);
    assert("asm"@[0] != "jsx"@[0]);
    assert("asm"@[0] != "tsx"@[0]);
    assert("asm"@[0] != "php"@[0]);
    assert("asm"@[0] != "kts"@[0]);
    assert("asm"@[0] != "zsh"@[0]);
    assert("asm"@[0] != "ps1"@[0]);
    assert("asm"@[0] != "lua"@[0]);
    assert("asm"@[0] != "yml"@[0]);
    assert("asm"@[0] != "xml"@[0]);
    assert("asm"@[0] != "csv"@[0]);
    assert("asm"@[0] != "sql"@[0]);
    assert("asm"@[0] != "tex"@[0]);
    assert("s"@[0] != "c"@[0]);
    assert("s"@[0] != "h"@[0]);
    assert("hs"@[0] != "cc"@[0]);
    assert("hs"@[1] != "hh"@[1]);
    assert("hs"@[0] != "js"@[0]);
    assert("hs"@[0] != "ts"@[0]);
    assert("hs"@[0] != "rb"@[0]);
    assert("hs"@[0] != "py"@[0]);
    assert("hs"@[0] != "rs"@[0]);
    assert("hs"@[0] != "go"@[0]);
    assert("hs"@[0] != "kt"@[0]);
    assert("hs"@[0] != "sh"@[0]);
    assert("hs"@[0] != "pl"@[0]);
    assert("hs"@[0] != "pm"@[0]);
    assert("hs"@[0] != "md"@[0]);
    assert("lhs"@[0] != "cpp"@[0]);
    assert("lhs"@[0] != "cxx"@[0]);
    assert("lhs"@[0] != "hpp"@[0]);
    assert("lhs"@[0] != "hxx"@[0]);
    assert("lhs"@[0] != "htm"@[0]);
    assert("lhs"@[0] != "css"@[0]);
    assert("lhs"@[0] != "jsx"@[0]);
    assert("lhs"@[0] != "tsx"@[0]);
    assert("lhs"@[0] != "php"@[0]);
    assert("lhs"@[0] != "kts"@[0]);
    assert("lhs"@[0] != "zsh"@[0]);
    assert("lhs"@[0] != "ps1"@[0]);
    assert("lhs"@[1] != "lua"@[1]);
    assert("lhs"@[0] != "yml"@[0]);
    assert("lhs"@[0] != "xml"@[0]);
    assert("lhs"@[0] != "csv"@[0]);
    assert("lhs"@[0] != "sql"@[0]);
    assert("lhs"@[0] != "tex"@[0]);
    assert("lhs"@[0] != "asm"@[0]);
    assert("erl"@[0] != "cpp"@[0]);
    assert("erl"@[0] != "cxx"@[0]);
    assert("erl"@[0] != "hpp"@[0]);
    assert("erl"@[0] != "hxx"@[0]);
    assert("erl"@[0] != "htm"@[0]);
    assert("erl"@[0] != "css"@[0]);
    assert("erl"@[0] != "jsx"@[0]);
    assert("erl"@[0] != "tsx"@[0]);
    assert("erl"@[0] != "php"@[0]);
    assert("erl"@[0] != "kts"@[0]);
    assert("erl"@[0] != "zsh"@[0]);
    assert("erl"@[0] != "ps1"@[0]);
    assert("erl"@[0] != "lua"@[0]);
    assert("erl"@[0] != "yml"@[0]);
    assert("erl"@[0] != "xml"@[0]);
    assert("erl"@[0] != "csv"@[0]);
    assert("erl"@[0] != "sql"@[0]);
    assert("erl"@[0] != "tex"@[0]);
    assert("erl"@[0] != "asm"@[0]);
    assert("erl"@[0] != "lhs"@[0]);
    assert("hrl"@[0] != "cpp"@[0]);
    assert("hrl"@[0] != "cxx"@[0]);
    assert("hrl"@[1] != "hpp"@[1]);
    assert("hrl"@[1] != "hxx"@[1]);
    assert("hrl"@[1] != "htm"@[1]);
    assert("hrl"@[0] != "css"@[0]);
    assert("hrl"@[0] != "jsx"@[0]);
    assert("hrl"@[0] != "tsx"@[0]);
    assert("hrl"@[0] != "php"@[0]);
    assert("hrl"@[0] != "kts"@[0]);
    assert("hrl"@[0] != "zsh"@[0]);
    assert("hrl"@[0] != "ps1"@[0]);
    assert("hrl"@[0] != "lua"@[0]);
    assert("hrl"@[0] != "yml"@[0]);
    assert("hrl"@[0] != "xml"@[0]);
    assert("hrl"@[0] != "csv"@[0]);
    assert("hrl"@[0] != "sql"@[0]);
    assert("hrl"@[0] != "tex"@[0]);
    assert("hrl"@[0] != "asm"@[0]);
    assert("hrl"@[0] != "lhs"@[0]);
    assert("hrl"@[0] != "erl"@[0]);
    assert("ex"@[0] != "cc"@[0]);
    assert("ex"@[0] != "hh"@[0]);
    assert("ex"@[0] != "js"@[0]);
    assert("ex"@[0] != "ts"@[0]);
    assert("ex"@[0] != "rb"@[0]);
    assert("ex"@[0] != "py"@[0]);
    assert("ex"@[0] != "rs"@[0]);
    assert("ex"@[0] != "go"@[0]);
    assert("ex"@[0] != "kt"@[0]);
    assert("ex"@[0] != "sh"@[0]);
    assert("ex"@[0] != "pl"@[0]);
    assert("ex"@[0] != "pm"@[0]);
    assert("ex"@[0] != "md"@[0]);
    assert("ex"@[0] != "hs"@[0]);
    assert("exs"@[0] != "cpp"@[0]);
    assert("exs"@[0] != "cxx"@[0]);
    assert("exs"@[0] != "hpp"@[0]);
    assert("exs"@[0] != "hxx"@[0]);
    assert("exs"@[0] != "htm"@[0]);
    assert("exs"@[0] != "css"@[0]);
    assert("exs"@[0] != "jsx"@[0]);
    assert("exs"@[0] != "tsx"@[0]);
    assert("exs"@[0] != "php"@[0]);
    assert("exs"@[0] != "kts"@[0]);
    assert("exs"@[0] != "zsh"@[0]);
    assert("exs"@[0] != "ps1"@[0]);
    assert("exs"@[0] != "lua"@[0]);
    assert("exs"@[0] != "yml"@[0]);
    assert("exs"@[0] != "xml"@[0]);
    assert("exs"@[0] != "csv"@[0]);
    assert("exs"@[0] != "sql"@[0]);
    assert("exs"@[0] != "tex"@[0]);
    assert("exs"@[0] != "asm"@[0]);
    assert("exs"@[0] != "lhs"@[0]);
    assert("exs"@[1] != "erl"@[1]);
    assert("exs"@[0] != "hrl"@[0]);
    assert("ml"@[0] != "cc"@[0]);
    assert("ml"@[0] != "hh"@[0]);
    assert("ml"@[0] != "js"@[0]);
    assert("ml"@[0] != "ts"@[0]);
    assert("ml"@[0] != "rb"@[0]);
    assert("ml"@[0] != "py"@[0]);
    assert("ml"@[0] != "rs"@[0]);
    assert("ml"@[0] != "go"@[0]);
    assert("ml"@[0] != "kt"@[0]);
    assert("ml"@[0] != "sh"@[0]);
    assert("ml"@[0] != "pl"@[0]);
    assert("ml"@[0] != "pm"@[0]);
    assert("ml"@[1] != "md"@[1]);
    assert("ml"@[0] != "hs"@[0]);
    assert("ml"@[0] != "ex"@[0]);
    assert("mli"@[0] != "cpp"@[0]);
    assert("mli"@[0] != "cxx"@[0]);
    assert("mli"@[0] != "hpp"@[0]);
    assert("mli"@[0] != "hxx"@[0]);
    assert("mli"@[0] != "htm"@[0]);
    assert("mli"@[0] != "css"@[0]);
    assert("mli"@[0] != "jsx"@[0]);
    assert("mli"@[0] != "tsx"@[0]);
    assert("mli"@[0] != "php"@[0]);
    assert("mli"@[0] != "kts"@[0]);
    assert("mli"@[0] != "zsh"@[0]);
    assert("mli"@[0] != "ps1"@[0]);
    assert("mli"@[0] != "lua"@[0]);
    assert("mli"@[0] != "yml"@[0]);
    assert("mli"@[0] != "xml"@[0]);
    assert("mli"@[0] != "csv"@[0]);
    assert("mli"@[0] != "sql"@[0]);
    assert("mli"@[0] != "tex"@[0]);
    assert("mli"@[0] != "asm"@[0]);
    assert("mli"@[0] != "lhs"@[0]);
    assert("mli"@[0] != "erl"@[0]);
    assert("mli"@[0] != "hrl"@[0]);
    assert("mli"@[0] != "exs"@[0]);
}

/// Files are typed by their extension, whatever comes before it: `.fs`, `.fsi`, `.fsx`, `.scala`, `.sc`, `.clj`, `.cljs`, `.cljc`, `.edn`, `.groovy`.
pub proof fn law_file_types_by_extension_6(stem: Seq<char>)
    ensures
        file_type_of(stem + seq!['.'] + "fs"@) == "fsharp"@,
        file_type_of(stem + seq!['.'] + "fsi"@) == "fsharp"@,
        file_type_of(stem + seq!['.'] + "fsx"@) == "fsharp"@,
        file_type_of(stem + seq!['.'] + "scala"@) == "scala"@,
        file_type_of(stem + seq!['.'] + "sc"@) == "scala"@,
        file_type_of(stem + seq!['.'] + "clj"@) == "clojure"@,
        file_type_of(stem + seq!['.'] + "cljs"@) == "clojure"@,
        file_type_of(stem + seq!['.'] + "cljc"@) == "clojure"@,
        file_type_of(stem + seq!['.'] + "edn"@) == "clojure"@,
        file_type_of(stem + seq!['.'] + "groovy"@) == "groovy"@,
{
    reveal_strlit("c");
    reveal_strlit("h");
    reveal_strlit("cpp");
    reveal_strlit("cxx");
    reveal_strlit("cc");
    reveal_strlit("hpp");
    reveal_strlit("hxx");
    reveal_strlit("hh");
    reveal_strlit("html");
    reveal_strlit("htm");
    reveal_strlit("css");
    reveal_strlit("js");
    reveal_strlit("ts");
    reveal_strlit("jsx");
    reveal_strlit("tsx");
    reveal_strlit("php");
    reveal_strlit("rb");
    reveal_strlit("py");
    reveal_strlit("rs");
    reveal_strlit("go");
    reveal_strlit("java");
    reveal_strlit("kt");
    reveal_strlit("kts");
    reveal_strlit("swift");
    reveal_strlit("sh");
    reveal_strlit("bash");
    reveal_strlit("zsh");
    reveal_strlit("ps1");
    reveal_strlit("pl");
    reveal_strlit("pm");
    reveal_strlit("lua");
    reveal_strlit("json");
    reveal_strlit("yml");
    reveal_strlit("yaml");
    reveal_strlit("xml");
    reveal_strlit("csv");
    reveal_strlit("sql");
    reveal_strlit("md");
    reveal_strlit("markdown");
    reveal_strlit("tex");
    reveal_strlit("asm");
    reveal_strlit("s");
    reveal_strlit("hs");
    reveal_strlit("lhs");
    reveal_strlit("erl");
    reveal_strlit("hrl");
    reveal_strlit("ex");
    reveal_strlit("exs");
    reveal_strlit("ml");
    reveal_strlit("mli");
    reveal_strlit("fs");
    reveal_strlit("fsi");
    reveal_strlit("fsx");
    reveal_strlit("scala");
    reveal_strlit("sc");
    reveal_strlit("clj");
    reveal_strlit("cljs");
    reveal_strlit("cljc");
    reveal_strlit("edn");
    reveal_strlit("groovy");
    reveal_strlit("clojure");
    reveal_strlit("fsharp");
    reveal_strlit("groovy");
    reveal_strlit("scala");
    assert(forall|j: int| 0 <= j < "fs"@.len() ==> "fs"@[j] != '.');
    lemma_extension_after_dot(stem, "fs"@);
    lemma_not_special_name(stem, "fs"@);
    assert(forall|j: int| 0 <= j < "fsi"@.len() ==> "fsi"@[j] != '.');
    lemma_extension_after_dot(stem, "fsi"@);
    lemma_not_special_name(stem, "fsi"@);
    assert(forall|j: int| 0 <= j < "fsx"@.len() ==> "fsx"@[j] != '.');
    lemma_extension_after_dot(stem, "fsx"@);
    lemma_not_special_name(stem, "fsx"@);
    assert(forall|j: int| 0 <= j < "scala"@.len() ==> "scala"@[j] != '.');
    lemma_extension_after_dot(stem, "scala"@);
    lemma_not_special_name(stem, "scala"@);
    assert(forall|j: int| 0 <= j < "sc"@.len() ==> "sc"@[j] != '.');
    lemma_extension_after_dot(stem, "sc"@);
    lemma_not_special_name(stem, "sc"@);
    assert(forall|j: int| 0 <= j < "clj"@.len() ==> "clj"@[j] != '.');
    lemma_extension_after_dot(stem, "clj"@);
    lemma_not_special_name(stem, "clj"@);
    assert(forall|j: int| 0 <= j < "cljs"@.len() ==> "cljs"@[j] != '.');
    lemma_extension_after_dot(stem, "cljs"@);
    lemma_not_special_name(stem, "cljs"@);
    assert(forall|j: int| 0 <= j < "cljc"@.len() ==> "cljc"@[j] != '.');
    lemma_extension_after_dot(stem, "cljc"@);
    lemma_not_special_name(stem, "cljc"@);
    assert(forall|j: int| 0 <= j < "edn"@.len() ==> "edn"@[j] != '.');
    lemma_extension_after_dot(stem, "edn"@);
    lemma_not_special_name(stem, "edn"@);
    assert(forall|j: int| 0 <= j < "groovy"@.len() ==> "groovy"@[j] != '.');
    lemma_extension_after_dot(stem, "groovy"@);
    lemma_not_special_name(stem, "groovy"@);
    assert("fs"@[0] != "cc"@[0]);
    assert("fs"@[0] != "hh"@[0]);
    assert("fs"@[0] != "js"@[0]);
    assert("fs"@[0] != "ts"@[0]);
    assert("fs"@[0] != "rb"@[0]);
    assert("fs"@[0] != "py"@[0]);
    assert("fs"@[0] != "rs"@[0]);
    assert("fs"@[0] != "go"@[0]);
    assert("fs"@[0] != "kt"@[0]);
    assert("fs"@[0] != "sh"@[0]);
    assert("fs"@[0] != "pl"@[0]);
    assert("fs"@[0] != "pm"@[0]);
    assert("fs"@[0] != "md"@[0]);
    assert("fs"@[0] != "hs"@[0]);
    assert("fs"@[0] != "ex"@[0]);
    assert("fs"@[0] != "ml"@[0]);
    assert("fsi"@[0] != "cpp"@[0]);
    assert("fsi"@[0] != "cxx"@[0]);
    assert("fsi"@[0] != "hpp"@[0]);
    assert("fsi"@[0] != "hxx"@[0]);
    assert("fsi"@[0] != "htm"@[0]);
    assert("fsi"@[0] != "css"@[0]);
    assert("fsi"@[0] != "jsx"@[0]);
    assert("fsi"@[0] != "tsx"@[0]);
    assert("fsi"@[0] != "php"@[0]);
    assert("fsi"@[0] != "kts"@[0]);
    assert("fsi"@[0] != "zsh"@[0]);
    assert("fsi"@[0] != "ps1"@[0]);
    assert("fsi"@[0] != "lua"@[0]);
    assert("fsi"@[0] != "yml"@[0]);
    assert("fsi"@[0] != "xml"@[0]);
    assert("fsi"@[0] != "csv"@[0]);
    assert("fsi"@[0] != "sql"@[0]);
    assert("fsi"@[0] != "tex"@[0]);
    assert("fsi"@[0] != "asm"@[0]);
    assert("fsi"@[0] != "lhs"@[0]);
    assert("fsi"@[0] != "erl"@[0]);
    assert("fsi"@[0] != "hrl"@[0]);
    assert("fsi"@[0] != "exs"@[0]);
    assert("fsi"@[0] != "mli"@[0]);
    assert("fsx"@[0] != "cpp"@[0]);
    assert("fsx"@[0] != "cxx"@[0]);
    assert("fsx"@[0] != "hpp"@[0]);
    assert("fsx"@[0] != "hxx"@[0]);
    assert("fsx"@[0] != "htm"@[0]);
    assert("fsx"@[0] != "css"@[0]);
    assert("fsx"@[0] != "jsx"@[0]);
    assert("fsx"@[0] != "tsx"@[0]);
    assert("fsx"@[0] != "php"@[0]);
    assert("fsx"@[0] != "kts"@[0]);
    assert("fsx"@[0] != "zsh"@[0]);
    assert("fsx"@[0] != "ps1"@[0]);
    assert("fsx"@[0] != "lua"@[0]);
    assert("fsx"@[0] != "yml"@[0]);
    assert("fsx"@[0] != "xml"@[0]);
    assert("fsx"@[0] != "csv"@[0]);
    assert("fsx"@[0] != "sql"@[0]);
    assert("fsx"@[0] != "tex"@[0]);
    assert("fsx"@[0] != "asm"@[0]);
    assert("fsx"@[0] != "lhs"@[0]);
    assert("fsx"@[0] != "erl"@[0]);
    assert("fsx"@[0] != "hrl"@[0]);
    assert("fsx"@[0] != "exs"@[0]);
    assert("fsx"@[0] != "mli"@[0]);
    assert("fsx"@[2] != "fsi"@[2]);
    assert("scala"@[1] != "swift"@[1]);
    assert("sc"@[0] != "cc"@[0]);
    assert("sc"@[0] != "hh"@[0]);
    assert("sc"@[0] != "js"@[0]);
    assert("sc"@[0] != "ts"@[0]);
    assert("sc"@[0] != "rb"@[0]);
    assert("sc"@[0] != "py"@[0]);
    assert("sc"@[0] != "rs"@[0]);
    assert("sc"@[0] != "go"@[0]);
    assert("sc"@[0] != "kt"@[0]);
    assert("sc"@[1] != "sh"@[1]);
    assert("sc"@[0] != "pl"@[0]);
    assert("sc"@[0] != "pm"@[0]);
    assert("sc"@[0] != "md"@[0]);
    assert("sc"@[0] != "hs"@[0]);
    assert("sc"@[0] != "ex"@[0]);
    assert("sc"@[0] != "ml"@[0]);
    assert("sc"@[0] != "fs"@[0]);
    assert("clj"@[1] != "cpp"@[1]);
    assert("clj"@[1] != "cxx"@[1]);
    assert("clj"@[0] != "hpp"@[0]);
    assert("clj"@[0] != "hxx"@[0]);
    assert("clj"@[0] != "htm"@[0]);
    assert("clj"@[1] != "css"@[1]);
    assert("clj"@[0] != "jsx"@[0]);
    assert("clj"@[0] != "tsx"@[0]);
    assert("clj"@[0] != "php"@[0]);
    assert("clj"@[0] != "kts"@[0]);
    assert("clj"@[0] != "zsh"@[0]);
    assert("clj"@[0] != "ps1"@[0]);
    assert("clj"@[0] != "lua"@[0]);
    assert("clj"@[0] != "yml"@[0]);
    assert("clj"@[0] != "xml"@[0]);
    assert("clj"@[1] != "csv"@[1]);
    assert("clj"@[0] != "sql"@[0]);
    assert("clj"@[0] != "tex"@[0]);
    assert("clj"@[0] != "asm"@[0]);
    assert("clj"@[0] != "lhs"@[0]);
    assert("clj"@[0] != "erl"@[0]);
    assert("clj"@[0] != "hrl"@[0]);
    assert("clj"@[0] != "exs"@[0]);
    assert("clj"@[0] != "mli"@[0]);
    assert("clj"@[0] != "fsi"@[0]);
    assert("clj"@[0] != "fsx"@[0]);
    assert("cljs"@[0] != "html"@[0]);
    assert("cljs"@[0] != "java"@[0]);
    assert("cljs"@[0] != "bash"@[0]);
    assert("cljs"@[0] != "json"@[0]);
    assert("cljs"@[0] != "yaml"@[0]);
    assert("cljc"@[0] != "html"@[0]);
    assert("cljc"@[0] != "java"@[0]);
    assert("cljc"@[0] != "bash"@[0]);
    assert("cljc"@[0] != "json"@[0]);
    assert("cljc"@[0] != "yaml"@[0]);
    assert("cljc"@[3] != "cljs"@[3]);
    assert("edn"@[0] != "cpp"@[0]);
    assert("edn"@[0] != "cxx"@[0]);
    assert("edn"@[0] != "hpp"@[0]);
    assert("edn"@[0] != "hxx"@[0]);
    assert("edn"@[0] != "htm"@[0]);
    assert("edn"@[0] != "css"@[0]);
    assert("edn"@[0] != "jsx"@[0]);
    assert("edn"@[0] != "tsx"@[0]);
    assert("edn"@[0] != "php"@[0]);
    assert("edn"@[0] != "kts"@[0]);
    assert("edn"@[0] != "zsh"@[0]);
    assert("edn"@[0] != "ps1"@[0]);
    assert("edn"@[0] != "lua"@[0]);
    assert("edn"@[0] != "yml"@[0]);
    assert("edn"@[0] != "xml"@[0]);
    assert("edn"@[0] != "csv"@[0]);
    assert("edn"@[0] != "sql"@[0]);
    assert("edn"@[0] != "tex"@[0]);
    assert("edn"@[0] != "asm"@[0]);
    assert("edn"@[0] != "lhs"@[0]);
    assert("edn"@[1] != "erl"@[1]);
    assert("edn"@[0] != "hrl"@[0]);
    assert("edn"@[1] != "exs"@[1]);
    assert("edn"@[0] != "mli"@[0]);
    assert("edn"@[0] != "fsi"@[0]);
    assert("edn"@[0] != "fsx"@[0]);
    assert("edn"@[0] != "clj"@[0]);
}

/// Files are typed by their extension, whatever comes before it: `.gvy`, `.gy`, `.gsh`, `.f`, `.for`, `.f90`, `.f95`, `.dart`, `.m`, `.mm`.
pub proof fn law_file_types_by_extension_7(stem: Seq<char>)
    ensures
        file_type_of(stem + seq!['.'] + "gvy"@) == "groovy"@,
        file_type_of(stem + seq!['.'] + "gy"@) == "groovy"@,
        file_type_of(stem + seq!['.'] + "gsh"@) == "groovy"@,
        file_type_of(stem + seq!['.'] + "f"@) == "fortran"@,
        file_type_of(stem + seq!['.'] + "for"@) == "fortran"@,
        file_type_of(stem + seq!['.'] + "f90"@) == "fortran"@,
        file_type_of(stem + seq!['.'] + "f95"@) == "fortran"@,
        file_type_of(stem + seq!['.'] + "dart"@) == "dart"@,
        file_type_of(stem + seq!['.'] + "m"@) == "objective-c"@,
        file_type_of(stem + seq!['.'] + "mm"@) == "objective-c"@,
{
    reveal_strlit("c");
    reveal_strlit("h");
    reveal_strlit("cpp");
    reveal_strlit("cxx");
    reveal_strlit("cc");
    reveal_strlit("hpp");
    reveal_strlit("hxx");
    reveal_strlit("hh");
    reveal_strlit("html");
    reveal_strlit("htm");
    reveal_strlit("css");
    reveal_strlit("js");
    reveal_strlit("ts");
    reveal_strlit("jsx");
    reveal_strlit("tsx");
    reveal_strlit("php");
    reveal_strlit("rb");
    reveal_strlit("py");
    reveal_strlit("rs");
    reveal_strlit("go");
    reveal_strlit("java");
    reveal_strlit("kt");
    reveal_strlit("kts");
    reveal_strlit("swift");
    reveal_strlit("sh");
    reveal_strlit("bash");
    reveal_strlit("zsh");
    reveal_strlit("ps1");
    reveal_strlit("pl");
    reveal_strlit("pm");
    reveal_strlit("lua");
    reveal_strlit("json");
    reveal_strlit("yml");
    reveal_strlit("yaml");
    reveal_strlit("xml");
    reveal_strlit("csv");
    reveal_strlit("sql");
    reveal_strlit("md");
    reveal_strlit("markdown");
    reveal_strlit("tex");
    reveal_strlit("asm");
    reveal_strlit("s");
    reveal_strlit("hs");
    reveal_strlit("lhs");
    reveal_strlit("erl");
    reveal_strlit("hrl");
    reveal_strlit("ex");
    reveal_strlit("exs");
    reveal_strlit("ml");
    reveal_strlit("mli");
    reveal_strlit("fs");
    reveal_strlit("fsi");
    reveal_strlit("fsx");
    reveal_strlit("scala");
    reveal_strlit("sc");
    reveal_strlit("clj");
    reveal_strlit("cljs");
    reveal_strlit("cljc");
    reveal_strlit("edn");
    reveal_strlit("groovy");
    reveal_strlit("gvy");
    reveal_strlit("gy");
    reveal_strlit("gsh");
    reveal_strlit("f");
    reveal_strlit("for");
    reveal_strlit("f90");
    reveal_strlit("f95");
    reveal_strlit("dart");
    reveal_strlit("m");
    reveal_strlit("mm");
    reveal_strlit("dart");
    reveal_strlit("fortran");
    reveal_strlit("groovy");
    reveal_strlit("objective-c");
    assert(forall|j: int| 0 <= j < "gvy"@.len() ==> "gvy"@[j] != '.');
    lemma_extension_after_dot(stem, "gvy"@);
    lemma_not_special_name(stem, "gvy"@);
    assert(forall|j: int| 0 <= j < "gy"@.len() ==> "gy"@[j] != '.');
    lemma_extension_after_dot(stem, "gy"@);
    lemma_not_special_name(stem, "gy"@);
    assert(forall|j: int| 0 <= j < "gsh"@.len() ==> "gsh"@[j] != '.');
    lemma_extension_after_dot(stem, "gsh"@);
    lemma_not_special_name(stem, "gsh"@);
    assert(forall|j: int| 0 <= j < "f"@.len() ==> "f"@[j] != '.');
    lemma_extension_after_dot(stem, "f"@);
    lemma_not_special_name(stem, "f"@);
    assert(forall|j: int| 0 <= j < "for"@.len() ==> "for"@[j] != '.');
    lemma_extension_after_dot(stem, "for"@);
    lemma_not_special_name(stem, "for"@);
    assert(forall|j: int| 0 <= j < "f90"@.len() ==> "f90"@[j] != '.');
    lemma_extension_after_dot(stem, "f90"@);
    lemma_not_special_name(stem, "f90"@);
    assert(forall|j: int| 0 <= j < "f95"@.len() ==> "f95"@[j] != '.');
    lemma_extension_after_dot(stem, "f95"@);
    lemma_not_special_name(stem, "f95"@);
    assert(forall|j: int| 0 <= j < "dart"@.len() ==> "dart"@[j] != '.');
    lemma_extension_after_dot(stem, "dart"@);
    lemma_not_special_name(stem, "dart"@);
    assert(forall|j: int| 0 <= j < "m"@.len() ==> "m"@[j] != '.');
    lemma_extension_after_dot(stem, "m"@);
    lemma_not_special_name(stem, "m"@);
    assert(forall|j: int| 0 <= j < "mm"@.len() ==> "mm"@[j] != '.');
    lemma_extension_after_dot(stem, "mm"@);
    lemma_not_special_name(stem, "mm"@);
    assert("gvy"@[0] != "cpp"@[0]);
    assert("gvy"@[0] != "cxx"@[0]);
    assert("gvy"@[0] != "hpp"@[0]);
    assert("gvy"@[0] != "hxx"@[0]);
    assert("gvy"@[0] != "htm"@[0]);
    assert("gvy"@[0] != "css"@[0]);
    assert("gvy"@[0] != "jsx"@[0]);
    assert("gvy"@[0] != "tsx"@[0]);
    assert("gvy"@[0] != "php"@[0]);
    assert("gvy"@[0] != "kts"@[0]);
    assert("gvy"@[0] != "zsh"@[0]);
    assert("gvy"@[0] != "ps1"@[0]);
    assert("gvy"@[0] != "lua"@[0]);
    assert("gvy"@[0] != "yml"@[0]);
    assert("gvy"@[0] != "xml"@[0]);
    assert("gvy"@[0] != "csv"@[0]);
    assert("gvy"@[0] != "sql"@[0]);
    assert("gvy"@[0] != "tex"@[0]);
    assert("gvy"@[0] != "asm"@[0]);
    assert("gvy"@[0] != "lhs"@[0]);
    assert("gvy"@[0] != "erl"@[0]);
    assert("gvy"@[0] != "hrl"@[0]);
    assert("gvy"@[0] != "exs"@[0]);
    assert("gvy"@[0] != "mli"@[0]);
    assert("gvy"@[0] != "fsi"@[0]);
    assert("gvy"@[0] != "fsx"@[0]);
    assert("gvy"@[0] != "clj"@[0]);
    assert("gvy"@[0] != "edn"@[0]);
    assert("gy"@[0] != "cc"@[0]);
    assert("gy"@[0] != "hh"@[0]);
    assert("gy"@[0] != "js"@[0]);
    assert("gy"@[0] != "ts"@[0]);
    assert("gy"@[0] != "rb"@[0]);
    assert("gy"@[0] != "py"@[0]);
    assert("gy"@[0] != "rs"@[0]);
    assert("gy"@[1] != "go"@[1]);
    assert("gy"@[0] != "kt"@[0]);
    assert("gy"@[0] != "sh"@[0]);
    assert("gy"@[0] != "pl"@[0]);
    assert("gy"@[0] != "pm"@[0]);
    assert("gy"@[0] != "md"@[0]);
    assert("gy"@[0] != "hs"@[0]);
    assert("gy"@[0] != "ex"@[0]);
    assert("gy"@[0] != "ml"@[0]);
    assert("gy"@[0] != "fs"@[0]);
    assert("gy"@[0] != "sc"@[0]);
    assert("gsh"@[0] != "cpp"@[0]);
    assert("gsh"@[0] != "cxx"@[0]);
    assert("gsh"@[0] != "hpp"@[0]);
    assert("gsh"@[0] != "hxx"@[0]);
    assert("gsh"@[0] != "htm"@[0]);
    assert("gsh"@[0] != "css"@[0]);
    assert("gsh"@[0] != "jsx"@[0]);
    assert("gsh"@[0] != "tsx"@[0]);
    assert("gsh"@[0] != "php"@[0]);
    assert("gsh"@[0] != "kts"@[0]);
    assert("gsh"@[0] != "zsh"@[0]);
    assert("gsh"@[0] != "ps1"@[0]);
    assert("gsh"@[0] != "lua"@[0]);
    assert("gsh"@[0] != "yml"@[0]);
    assert("gsh"@[0] != "xml"@[0]);
    assert("gsh"@[0] != "csv"@[0]);
    assert("gsh"@[0] != "sql"@[0]);
    assert("gsh"@[0] != "tex"@[0]);
    assert("gsh"@[0] != "asm"@[0]);
    assert("gsh"@[0] != "lhs"@[0]);
    assert("gsh"@[0] != "erl"@[0]);
    assert("gsh"@[0] != "hrl"@[0]);
    assert("gsh"@[0] != "exs"@[0]);
    assert("gsh"@[0] != "mli"@[0]);
    assert("gsh"@[0] != "fsi"@[0]);
    assert("gsh"@[0] != "fsx"@[0]);
    assert("gsh"@[0] != "clj"@[0]);
    assert("gsh"@[0] != "edn"@[0]);
    assert("gsh"@[1] != "gvy"@[1]);
    assert("f"@[0] != "c"@[0]);
    assert("f"@[0] != "h"@[0]);
    assert("f"@[0] != "s"@[0]);
    assert("for"@[0] != "cpp"@[0]);
    assert("for"@[0] != "cxx"@[0]);
    assert("for"@[0] != "hpp"@[0]);
    assert("for"@[0] != "hxx"@[0]);
    assert("for"@[0] != "htm"@[0]);
    assert("for"@[0] != "css"@[0]);
    assert("for"@[0] != "jsx"@[0]);
    assert("for"@[0] != "tsx"@[0]);
    assert("for"@[0] != "php"@[0]);
    assert("for"@[0] != "kts"@[0]);
    assert("for"@[0] != "zsh"@[0]);
    assert("for"@[0] != "ps1"@[0]);
    assert("for"@[0] != "lua"@[0]);
    assert("for"@[0] != "yml"@[0]);
    assert("for"@[0] != "xml"@[0]);
    assert("for"@[0] != "csv"@[0]);
    assert("for"@[0] != "sql"@[0]);
    assert("for"@[0] != "tex"@[0]);
    assert("for"@[0] != "asm"@[0]);
    assert("for"@[0] != "lhs"@[0]);
    assert("for"@[0] != "erl"@[0]);
    assert("for"@[0] != "hrl"@[0]);
    assert("for"@[0] != "exs"@[0]);
    assert("for"@[0] != "mli"@[0]);
    assert("for"@[1] != "fsi"@[1]);
    assert("for"@[1] != "fsx"@[1]);
    assert("for"@[0] != "clj"@[0]);
    assert("for"@[0] != "edn"@[0]);
    assert("for"@[0] != "gvy"@[0]);
    assert("for"@[0] != "gsh"@[0]);
    assert("f90"@[0] != "cpp"@[0]);
    assert("f90"@[0] != "cxx"@[0]);
    assert("f90"@[0] != "hpp"@[0]);
    assert("f90"@[0] != "hxx"@[0]);
    assert("f90"@[0] != "htm"@[0]);
    assert("f90"@[0] != "css"@[0]);
    assert("f90"@[0] != "jsx"@[0]);
    assert("f90"@[0] != "tsx"@[0]);
    assert("f90"@[0] != "php"@[0]);
    assert("f90"@[0] != "kts"@[0]);
    assert("f90"@[0] != "zsh"@[0]);
    assert("f90"@[0] != "ps1"@[0]);
    assert("f90"@[0] != "lua"@[0]);
    assert("f90"@[0] != "yml"@[0]);
    assert("f90"@[0] != "xml"@[0]);
    assert("f90"@[0] != "csv"@[0]);
    assert("f90"@[0] != "sql"@[0]);
    assert("f90"@[0] != "tex"@[0]);
    assert("f90"@[0] != "asm"@[0]);
    assert("f90"@[0] != "lhs"@[0]);
    assert("f90"@[0] != "erl"@[0]);
    assert("f90"@[0] != "hrl"@[0]);
    assert("f90"@[0] != "exs"@[0]);
    assert("f90"@[0] != "mli"@[0]);
    assert("f90"@[1] != "fsi"@[1]);
    assert("f90"@[1] != "fsx"@[1]);
    assert("f90"@[0] != "clj"@[0]);
    assert("f90"@[0] != "edn"@[0]);
    assert("f90"@[0] != "gvy"@[0]);
    assert("f90"@[0] != "gsh"@[0]);
    assert("f90"@[1] != "for"@[1]);
    assert("f95"@[0] != "cpp"@[0]);
    assert("f95"@[0] != "cxx"@[0]);
    assert("f95"@[0] != "hpp"@[0]);
    assert("f95"@[0] != "hxx"@[0]);
    assert("f95"@[0] != "htm"@[0]);
    assert("f95"@[0] != "css"@[0]);
    assert("f95"@[0] != "jsx"@[0]);
    assert("f95"@[0] != "tsx"@[0]);
    assert("f95"@[0] != "php"@[0]);
    assert("f95"@[0] != "kts"@[0]);
    assert("f95"@[0] != "zsh"@[0]);
    assert("f95"@[0] != "ps1"@[0]);
    assert("f95"@[0] != "lua"@[0]);
    assert("f95"@[0] != "yml"@[0]);
    assert("f95"@[0] != "xml"@[0]);
    assert("f95"@[0] != "csv"@[0]);
    assert("f95"@[0] != "sql"@[0]);
    assert("f95"@[0] != "tex"@[0]);
    assert("f95"@[0] != "asm"@[0]);
    assert("f95"@[0] != "lhs"@[0]);
    assert("f95"@[0] != "erl"@[0]);
    assert("f95"@[0] != "hrl"@[0]);
    assert("f95"@[0] != "exs"@[0]);
    assert("f95"@[0] != "mli"@[0]);
    assert("f95"@[1] != "fsi"@[1]);
    assert("f95"@[1] != "fsx"@[1]);
    assert("f95"@[0] != "clj"@[0]);
    assert("f95"@[0] != "edn"@[0]);
    assert("f95"@[0] != "gvy"@[0]);
    assert("f95"@[0] != "gsh"@[0]);
    assert("f95"@[1] != "for"@[1]);
    assert("f95"@[2] != "f90"@[2]);
    assert("dart"@[0] != "html"@[0]);
    assert("dart"@[0] != "java"@[0]);
    assert("dart"@[0] != "bash"@[0]);
    assert("dart"@[0] != "json"@[0]);
    assert("dart"@[0] != "yaml"@[0]);
    assert("dart"@[0] != "cljs"@[0]);
    assert("dart"@[0] != "cljc"@[0]);
    assert("m"@[0] != "c"@[0]);
    assert("m"@[0] != "h"@[0]);
    assert("m"@[0] != "s"@[0]);
    assert("m"@[0] != "f"@[0]);
    assert("mm"@[0] != "cc"@[0]);
    assert("mm"@[0] != "hh"@[0]);
    assert("mm"@[0] != "js"@[0]);
    assert("mm"@[0] != "ts"@[0]);
    assert("mm"@[0] != "rb"@[0]);
    assert("mm"@[0] != "py"@[0]);
    assert("mm"@[0] != "rs"@[0]);
    assert("mm"@[0] != "go"@[0]);
    assert("mm"@[0] != "kt"@[0]);
    assert("mm"@[0] != "sh"@[0]);
    assert("mm"@[0] != "pl"@[0]);
    assert("mm"@[0] != "pm"@[0]);
    assert("mm"@[1] != "md"@[1]);
    assert("mm"@[0] != "hs"@[0]);
    assert("mm"@[0] != "ex"@[0]);
    assert("mm"@[1] != "ml"@[1]);
    assert("mm"@[0] != "fs"@[0]);
    assert("mm"@[0] != "sc"@[0]);
    assert("mm"@[0] != "gy"@[0]);
}

/// Files are typed by their extension, whatever comes before it: `.cs`, `.cbl`, `.cob`, `.toml`.
pub proof fn law_file_types_by_extension_8(stem: Seq<char>)
    ensures
        file_type_of(stem + seq!['.'] + "cs"@) == "csharp"@,
        file_type_of(stem + seq!['.'] + "cbl"@) == "cobol"@,
        file_type_of(stem + seq!['.'] + "cob"@) == "cobol"@,
        file_type_of(stem + seq!['.'] + "toml"@) == "toml"@,
{
    reveal_strlit("c");
    reveal_strlit("h");
    reveal_strlit("cpp");
    reveal_strlit("cxx");
    reveal_strlit("cc");
    reveal_strlit("hpp");
    reveal_strlit("hxx");
    reveal_strlit("hh");
    reveal_strlit("html");
    reveal_strlit("htm");
    reveal_strlit("css");
    reveal_strlit("js");
    reveal_strlit("ts");
    reveal_strlit("jsx");
    reveal_strlit("tsx");
    reveal_strlit("php");
    reveal_strlit("rb");
    reveal_strlit("py");
    reveal_strlit("rs");
    reveal_strlit("go");
    reveal_strlit("java");
    reveal_strlit("kt");
    reveal_strlit("kts");
    reveal_strlit("swift");
    reveal_strlit("sh");
    reveal_strlit("bash");
    reveal_strlit("zsh");
    reveal_strlit("ps1");
    reveal_strlit("pl");
    reveal_strlit("pm");
    reveal_strlit("lua");
    reveal_strlit("json");
    reveal_strlit("yml");
    reveal_strlit("yaml");
    reveal_strlit("xml");
    reveal_strlit("csv");
    reveal_strlit("sql");
    reveal_strlit("md");
    reveal_strlit("markdown");
    reveal_strlit("tex");
    reveal_strlit("asm");
    reveal_strlit("s");
    reveal_strlit("hs");
    reveal_strlit("lhs");
    reveal_strlit("erl");
    reveal_strlit("hrl");
    reveal_strlit("ex");
    reveal_strlit("exs");
    reveal_strlit("ml");
    reveal_strlit("mli");
    reveal_strlit("fs");
    reveal_strlit("fsi");
    reveal_strlit("fsx");
    reveal_strlit("scala");
    reveal_strlit("sc");
    reveal_strlit("clj");
    reveal_strlit("cljs");
    reveal_strlit("cljc");
    reveal_strlit("edn");
    reveal_strlit("groovy");
    reveal_strlit("gvy");
    reveal_strlit("gy");
    reveal_strlit("gsh");
    reveal_strlit("f");
    reveal_strlit("for");
    reveal_strlit("f90");
    reveal_strlit("f95");
    reveal_strlit("dart");
    reveal_strlit("m");
    reveal_strlit("mm");
    reveal_strlit("cs");
    reveal_strlit("cbl");
    reveal_strlit("cob");
    reveal_strlit("toml");
    reveal_strlit("cobol");
    reveal_strlit("csharp");
    reveal_strlit("toml");
    assert(forall|j: int| 0 <= j < "cs"@.len() ==> "cs"@[j] != '.');
    lemma_extension_after_dot(stem, "cs"@);
    lemma_not_special_name(stem, "cs"@);
    assert(forall|j: int| 0 <= j < "cbl"@.len() ==> "cbl"@[j] != '.');
    lemma_extension_after_dot(stem, "cbl"@);
    lemma_not_special_name(stem, "cbl"@);
    assert(forall|j: int| 0 <= j < "cob"@.len() ==> "cob"@[j] != '.');
    lemma_extension_after_dot(stem, "cob"@);
    lemma_not_special_name(stem, "cob"@);
    assert(forall|j: int| 0 <= j < "toml"@.len() ==> "toml"@[j] != '.');
    lemma_extension_after_dot(stem, "toml"@);
    lemma_not_special_name(stem, "toml"@);
    assert("cs"@[1] != "cc"@[1]);
    assert("cs"@[0] != "hh"@[0]);
    assert("cs"@[0] != "js"@[0]);
    assert("cs"@[0] != "ts"@[0]);
    assert("cs"@[0] != "rb"@[0]);
    assert("cs"@[0] != "py"@[0]);
    assert("cs"@[0] != "rs"@[0]);
    assert("cs"@[0] != "go"@[0]);
    assert("cs"@[0] != "kt"@[0]);
    assert("cs"@[0] != "sh"@[0]);
    assert("cs"@[0] != "pl"@[0]);
    assert("cs"@[0] != "pm"@[0]);
    assert("cs"@[0] != "md"@[0]);
    assert("cs"@[0] != "hs"@[0]);
    assert("cs"@[0] != "ex"@[0]);
    assert("cs"@[0] != "ml"@[0]);
    assert("cs"@[0] != "fs"@[0]);
    assert("cs"@[0] != "sc"@[0]);
    assert("cs"@[0] != "gy"@[0]);
    assert("cs"@[0] != "mm"@[0]);
    assert("cbl"@[1] != "cpp"@[1]);
    assert("cbl"@[1] != "cxx"@[1]);
    assert("cbl"@[0] != "hpp"@[0]);
    assert("cbl"@[0] != "hxx"@[0]);
    assert("cbl"@[0] != "htm"@[0]);
    assert("cbl"@[1] != "css"@[1]);
    assert("cbl"@[0] != "jsx"@[0]);
    assert("cbl"@[0] != "tsx"@[0]);
    assert("cbl"@[0] != "php"@[0]);
    assert("cbl"@[0] != "kts"@[0]);
    assert("cbl"@[0] != "zsh"@[0]);
    assert("cbl"@[0] != "ps1"@[0]);
    assert("cbl"@[0] != "lua"@[0]);
    assert("cbl"@[0] != "yml"@[0]);
    assert("cbl"@[0] != "xml"@[0]);
    assert("cbl"@[1] != "csv"@[1]);
    assert("cbl"@[0] != "sql"@[0]);
    assert("cbl"@[0] != "tex"@[0]);
    assert("cbl"@[0] != "asm"@[0]);
    assert("cbl"@[0] != "lhs"@[0]);
    assert("cbl"@[0] != "erl"@[0]);
    assert("cbl"@[0] != "hrl"@[0]);
    assert("cbl"@[0] != "exs"@[0]);
    assert("cbl"@[0] != "mli"@[0]);
    assert("cbl"@[0] != "fsi"@[0]);
    assert("cbl"@[0] != "fsx"@[0]);
    assert("cbl"@[1] != "clj"@[1]);
    assert("cbl"@[0] != "edn"@[0]);
    assert("cbl"@[0] != "gvy"@[0]);
    assert("cbl"@[0] != "gsh"@[0]);
    assert("cbl"@[0] != "for"@[0]);
    assert("cbl"@[0] != "f90"@[0]);
    assert("cbl"@[0] != "f95"@[0]);
    assert("cob"@[1] != "cpp"@[1]);
    assert("cob"@[1] != "cxx"@[1]);
    assert("cob"@[0] != "hpp"@[0]);
    assert("cob"@[0] != "hxx"@[0]);
    assert("cob"@[0] != "htm"@[0]);
    assert("cob"@[1] != "css"@[1]);
    assert("cob"@[0] != "jsx"@[0]);
    assert("cob"@[0] != "tsx"@[0]);
    assert("cob"@[0] != "php"@[0]);
    assert("cob"@[0] != "kts"@[0]);
    assert("cob"@[0] != "zsh"@[0]);
    assert("cob"@[0] != "ps1"@[0]);
    assert("cob"@[0] != "lua"@[0]);
    assert("cob"@[0] != "yml"@[0]);
    assert("cob"@[0] != "xml"@[0]);
    assert("cob"@[1] != "csv"@[1]);
    assert("cob"@[0] != "sql"@[0]);
    assert("cob"@[0] != "tex"@[0]);
    assert("cob"@[0] != "asm"@[0]);
    assert("cob"@[0] != "lhs"@[0]);
    assert("cob"@[0] != "erl"@[0]);
    assert("cob"@[0] != "hrl"@[0]);
    assert("cob"@[0] != "exs"@[0]);
    assert("cob"@[0] != "mli"@[0]);
    assert("cob"@[0] != "fsi"@[0]);
    assert("cob"@[0] != "fsx"@[0]);
    assert("cob"@[1] != "clj"@[1]);
    assert("cob"@[0] != "edn"@[0]);
    assert("cob"@[0] != "gvy"@[0]);
    assert("cob"@[0] != "gsh"@[0]);
    assert("cob"@[0] != "for"@[0]);
    assert("cob"@[0] != "f90"@[0]);
    assert("cob"@[0] != "f95"@[0]);
    assert("cob"@[1] != "cbl"@[1]);
    assert("toml"@[0] != "html"@[0]);
    assert("toml"@[0] != "java"@[0]);
    assert("toml"@[0] != "bash"@[0]);
    assert("toml"@[0] != "json"@[0]);
    assert("toml"@[0] != "yaml"@[0]);
    assert("toml"@[0] != "cljs"@[0]);
    assert("toml"@[0] != "cljc"@[0]);
    assert("toml"@[0] != "dart"@[0]);
}

/// The names known as they are: `Makefile`, `Dockerfile`, `.gitignore` and
/// `COMMIT_EDITMSG`; and a name that ends in `'.'` has no known extension and is plain text.
pub proof fn law_file_types_by_name(stem: Seq<char>)
    ensures
        file_type_of("Makefile"@) == "makefile"@,
        file_type_of("Dockerfile"@) == "dockerfile"@,
        file_type_of(".gitignore"@) == "git-ignore"@,
        file_type_of("COMMIT_EDITMSG"@) == "commit-message"@,
        file_type_of(stem + seq!['.']) == "planetext"@,
{
    reveal_strlit("Makefile");
    reveal_strlit("Dockerfile");
    reveal_strlit(".gitignore");
    reveal_strlit("COMMIT_EDITMSG");
    reveal_strlit("planetext");
    assert(".gitignore"@[0] != "Dockerfile"@[0]);
    lemma_extension_after_dot(stem, seq![]);
    lemma_not_special_name(stem, seq![]);
    assert(stem + seq!['.'] + Seq::<char>::empty() =~= stem + seq!['.']);
    reveal_strlit("c");
    reveal_strlit("h");
    reveal_strlit("cpp");
    reveal_strlit("cxx");
    reveal_strlit("cc");
    reveal_strlit("hpp");
    reveal_strlit("hxx");
    reveal_strlit("hh");
    reveal_strlit("html");
    reveal_strlit("htm");
    reveal_strlit("css");
    reveal_strlit("js");
    reveal_strlit("ts");
    reveal_strlit("jsx");
    reveal_strlit("tsx");
    reveal_strlit("php");
    reveal_strlit("rb");
    reveal_strlit("py");
    reveal_strlit("rs");
    reveal_strlit("go");
    reveal_strlit("java");
    reveal_strlit("kt");
    reveal_strlit("kts");
    reveal_strlit("swift");
    reveal_strlit("sh");
    reveal_strlit("bash");
    reveal_strlit("zsh");
    reveal_strlit("ps1");
    reveal_strlit("pl");
    reveal_strlit("pm");
    reveal_strlit("lua");
    reveal_strlit("json");
    reveal_strlit("yml");
    reveal_strlit("yaml");
    reveal_strlit("xml");
    reveal_strlit("csv");
    reveal_strlit("sql");
    reveal_strlit("md");
    reveal_strlit("markdown");
    reveal_strlit("tex");
    reveal_strlit("asm");
    reveal_strlit("s");
    reveal_strlit("hs");
    reveal_strlit("lhs");
    reveal_strlit("erl");
    reveal_strlit("hrl");
    reveal_strlit("ex");
    reveal_strlit("exs");
    reveal_strlit("ml");
    reveal_strlit("mli");
    reveal_strlit("fs");
    reveal_strlit("fsi");
    reveal_strlit("fsx");
    reveal_strlit("scala");
    reveal_strlit("sc");
    reveal_strlit("clj");
    reveal_strlit("cljs");
    reveal_strlit("cljc");
    reveal_strlit("edn");
    reveal_strlit("groovy");
    reveal_strlit("gvy");
    reveal_strlit("gy");
    reveal_strlit("gsh");
    reveal_strlit("f");
    reveal_strlit("for");
    reveal_strlit("f90");
    reveal_strlit("f95");
    reveal_strlit("dart");
    reveal_strlit("m");
    reveal_strlit("mm");
    reveal_strlit("cs");
    reveal_strlit("cbl");
    reveal_strlit("cob");
    reveal_strlit("toml");
}

} // verus!
