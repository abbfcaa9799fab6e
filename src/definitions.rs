//! The built-in table of file types.

use vstd::prelude::*;
use crate::filetype_types::{
    all_dotted, def_spec, def_views, entry, push_def, DefView, FileTypeDefinition, FileTypeFormat,
};

verus! {

/// Part 1 of the built-in table, as the lookups read it.
pub open spec fn builtin_part_1() -> Seq<DefView> {
    seq![
        def_spec("ada", seq!["adb", "ads"], Seq::<&str>::empty(), false),
        def_spec("apiblueprint", seq!["apib", "apiblueprint"], Seq::<&str>::empty(), false),
        def_spec("argdown", seq!["ad", "adown", "argdn", "argdown"], Seq::<&str>::empty(), false),
        def_spec("asciidoc", seq!["adoc", "asc", "asciidoc"], Seq::<&str>::empty(), false),
        def_spec("bat", seq!["bat", "cmd"], Seq::<&str>::empty(), false),
        def_spec("bazel", seq!["bazel", "bzl"], Seq::<&str>::empty(), false),
        def_spec("bibtex", seq!["bib"], Seq::<&str>::empty(), false),
        def_spec("bicep", seq!["bicep"], Seq::<&str>::empty(), false),
        def_spec("c", seq!["c", "i"], Seq::<&str>::empty(), false),
        def_spec("cache_files", Seq::<&str>::empty(), seq![".DS_Store", ".cspellcache", ".eslintcache"], false),
        def_spec("clojure", seq!["clj", "cljc", "cljs", "cljx", "clojure", "edn"], Seq::<&str>::empty(), false),
        def_spec("cmake", seq!["cmake"], seq!["CMakeLists.txt"], false),
        def_spec("coffeescript", seq!["coffee", "cson", "iced"], Seq::<&str>::empty(), false),
        def_spec("cpp", seq!["c++", "c++m", "cc", "ccm", "cpp", "cppm", "cxx", "cxxm", "h", "h++", "h.in", "hh", "hpp", "hpp.in", "hxx", "ii", "inl", "ino", "ipp", "ixx", "mm", "tpp", "txx"], Seq::<&str>::empty(), false),
        def_spec("cpp_embedded_latex", Seq::<&str>::empty(), Seq::<&str>::empty(), false),
        def_spec("csharp", seq!["cake", "cs", "csx"], Seq::<&str>::empty(), false),
        def_spec("css", seq!["css"], Seq::<&str>::empty(), false),
        def_spec("cuda-cpp", seq!["cu", "cuh"], Seq::<&str>::empty(), false),
        def_spec("dart", seq!["dart"], Seq::<&str>::empty(), false),
        def_spec("dhall", seq!["dhall"], Seq::<&str>::empty(), false),
        def_spec("diff", seq!["diff", "patch", "rej"], Seq::<&str>::empty(), false),
        def_spec("dockercompose", Seq::<&str>::empty(), seq!["*docker*compose*.yaml", "*docker*compose*.yml", "compose.*.yaml", "compose.*.yml", "compose.yaml", "compose.yml"], false),
        def_spec("dockerfile", seq!["containerfile", "dockerfile"], seq!["*.Dockerfile.*", "Containerfile", "Containerfile.*", "Dockerfile", "Dockerfile.*", "Dockerfile.dev", "dockerfile"], false),
        def_spec("elisp", seq!["el"], Seq::<&str>::empty(), false),
        def_spec("elixir", seq!["ex", "exs"], Seq::<&str>::empty(), false),
        def_spec("elm", seq!["elm"], Seq::<&str>::empty(), false),
        def_spec("erb", seq!["erb", "html.erb", "rhtml"], Seq::<&str>::empty(), false),
        def_spec("fsharp", seq!["fs", "fsi", "fsscript", "fsx"], Seq::<&str>::empty(), false),
    ]
}

/// Part 2 of the built-in table, as the lookups read it.
pub open spec fn builtin_part_2() -> Seq<DefView> {
    seq![
        def_spec("git-commit", Seq::<&str>::empty(), seq!["COMMIT_EDITMSG", "MERGE_MSG"], false),
        def_spec("git-rebase", Seq::<&str>::empty(), seq!["git-rebase-todo"], false),
        def_spec("github-issues", seq!["github-issues"], Seq::<&str>::empty(), false),
        def_spec("go", seq!["go"], Seq::<&str>::empty(), false),
        def_spec("godot", seq!["gd", "godot", "tres", "tscn"], Seq::<&str>::empty(), false),
        def_spec("gradle", seq!["gradle"], Seq::<&str>::empty(), false),
        def_spec("groovy", seq!["gradle", "groovy", "gvy", "jenkinsfile", "nf"], seq!["Jenkinsfile", "Jenkinsfile*"], false),
        def_spec("haml", seq!["haml"], Seq::<&str>::empty(), false),
        def_spec("handlebars", seq!["handlebars", "hbs", "hjs"], Seq::<&str>::empty(), false),
        def_spec("haskell", seq!["hs", "lhs"], Seq::<&str>::empty(), false),
        def_spec("haxe", seq!["hx"], Seq::<&str>::empty(), false),
        def_spec("hlsl", seq!["cginc", "compute", "fx", "fxh", "hlsl", "hlsli", "psh", "vsh"], Seq::<&str>::empty(), false),
        def_spec("html", seq!["asp", "aspx", "ejs", "htm", "html", "jshtm", "jsp", "mdoc", "rhtml", "shtml", "volt", "vue", "xht", "xhtml"], Seq::<&str>::empty(), false),
        def_spec("ignore", seq!["git-blame-ignore-revs", "gitignore", "gitignore_global", "npmignore"], seq![".vscodeignore"], false),
        def_spec("ini", seq!["conf", "ini"], Seq::<&str>::empty(), false),
        def_spec("jade", seq!["jade", "pug"], Seq::<&str>::empty(), false),
        def_spec("java", seq!["jav", "java"], Seq::<&str>::empty(), false),
        def_spec("javascript", seq!["cjs", "es6", "js", "mjs", "pac"], seq!["jakefile"], false),
        def_spec("javascriptreact", seq!["jsx"], Seq::<&str>::empty(), false),
        def_spec("jinja", seq!["jinja"], Seq::<&str>::empty(), false),
        def_spec("json", seq!["babelrc", "bowerrc", "code-profile", "css.map", "eslintrc", "geojson", "har", "ipynb", "js.map", "jscsrc", "jshintrc", "jslintrc", "json", "jsonc", "jsonld", "ts.map", "tsbuildinfo", "vuerc", "webmanifest"], seq![".watchmanconfig", "composer.lock"], false),
        def_spec("jsonc", seq!["babelrc", "code-workspace", "color-theme.json", "eslintrc", "eslintrc.json", "hintrc", "icon-theme.json", "jsfmtrc", "jshintrc", "jsonc", "language-configuration.json", "swcrc"], seq![".babelrc.json", ".code-workspace", ".devcontainer.json", ".ember-cli", "argv.json", "babel.config.json", "devcontainer.json", "extensions.json", "jsconfig-*.json", "jsconfig.*.json", "jsconfig.json", "keybindings.json", "launch.json", "profiles.json", "settings.json", "tasks.json", "tsconfig-*.json", "tsconfig.*.json", "tsconfig.json", "typedoc.json"], false),
        def_spec("jsonl", seq!["jsonl"], Seq::<&str>::empty(), false),
        def_spec("jsx-tags", Seq::<&str>::empty(), Seq::<&str>::empty(), false),
        def_spec("julia", seq!["jl"], Seq::<&str>::empty(), false),
        def_spec("juliamarkdown", seq!["jmd"], Seq::<&str>::empty(), false),
        def_spec("jungle", seq!["jungle"], Seq::<&str>::empty(), false),
        def_spec("kotlin", seq!["kt"], Seq::<&str>::empty(), false),
    ]
}

/// Part 3 of the built-in table, as the lookups read it.
pub open spec fn builtin_part_3() -> Seq<DefView> {
    seq![
        def_spec("latex", seq!["ctx", "ltx", "tex"], Seq::<&str>::empty(), false),
        def_spec("less", seq!["less"], Seq::<&str>::empty(), false),
        def_spec("lisp", seq!["fasl", "l", "lisp", "lsp"], Seq::<&str>::empty(), false),
        def_spec("literate haskell", seq!["lhs"], Seq::<&str>::empty(), false),
        def_spec("lock", seq!["lock"], seq!["Cargo.lock", "berksfile.lock", "composer.lock", "package-lock.json"], false),
        def_spec("log", seq!["log"], seq!["*.log.?"], false),
        def_spec("lua", seq!["lua"], Seq::<&str>::empty(), false),
        def_spec("makefile", seq!["mak", "mk"], seq!["GNUmakefile", "Makefile", "OCamlMakefile", "makefile"], false),
        def_spec("map", seq!["map", "css.map", "ts.map", "js.map"], Seq::<&str>::empty(), false),
        def_spec("markdown", seq!["markdn", "markdown", "md", "mdown", "mdtext", "mdtxt", "mdwn", "mkd", "workbook"], Seq::<&str>::empty(), false),
        def_spec("markdown_latex_combined", Seq::<&str>::empty(), Seq::<&str>::empty(), false),
        def_spec("markdown-math", Seq::<&str>::empty(), Seq::<&str>::empty(), false),
        def_spec("mdx", seq!["mdx"], Seq::<&str>::empty(), false),
        def_spec("monkeyc", seq!["mb", "mc"], Seq::<&str>::empty(), false),
        def_spec("mustache", seq!["mst", "mu", "mustache", "stache"], Seq::<&str>::empty(), false),
        def_spec("nix", seq!["nix"], Seq::<&str>::empty(), false),
        def_spec("nunjucks", seq!["nj", "njk", "nunj", "nunjs", "nunjucks", "tmpl", "tpl"], Seq::<&str>::empty(), false),
        def_spec("objective-c", seq!["m"], Seq::<&str>::empty(), false),
        def_spec("objective-cpp", seq!["mm"], Seq::<&str>::empty(), false),
        def_spec("ocaml", seq!["eliom", "eliomi", "ml", "mli", "mll", "mly"], Seq::<&str>::empty(), false),
        def_spec("pdf", seq!["pdf"], Seq::<&str>::empty(), false),
        def_spec("pem", seq!["pem", "private-key.pem"], Seq::<&str>::empty(), false),
        def_spec("pem-private-key", seq!["private-key.pem"], Seq::<&str>::empty(), false),
        def_spec("perl", seq!["PL", "pl", "pm", "pod", "psgi", "t"], Seq::<&str>::empty(), false),
        def_spec("perl6", seq!["nqp", "p6", "pl6", "pm6"], Seq::<&str>::empty(), false),
        def_spec("php", seq!["ctp", "php", "php4", "php5", "phtml"], Seq::<&str>::empty(), false),
        def_spec("plaintext", seq!["txt"], Seq::<&str>::empty(), false),
        def_spec("powershell", seq!["ps1", "psd1", "psm1", "psrc", "pssc"], Seq::<&str>::empty(), false),
    ]
}

/// Part 4 of the built-in table, as the lookups read it.
pub open spec fn builtin_part_4() -> Seq<DefView> {
    seq![
        def_spec("properties", seq!["cfg", "conf", "directory", "editorconfig", "gitattributes", "gitconfig", "gitmodules", "npmrc", "properties", "repo"], seq![".env", "gitconfig"], false),
        def_spec("puppet", seq!["puppet"], Seq::<&str>::empty(), false),
        def_spec("purescript", seq!["purs"], Seq::<&str>::empty(), false),
        def_spec("python", seq!["cpy", "gyp", "gypi", "ipy", "py", "pyi", "pyt", "pyw", "rpy"], seq!["SConscript", "SConstruct"], false),
        def_spec("r", seq!["R", "r", "rhistory", "rprofile", "rt"], Seq::<&str>::empty(), false),
        def_spec("raku", seq!["nqp", "p6", "pl6", "pm6", "raku", "rakudoc", "rakumod", "rakutest"], Seq::<&str>::empty(), false),
        def_spec("razor", seq!["cshtml", "razor"], Seq::<&str>::empty(), false),
        def_spec("rescript", seq!["res", "resi"], Seq::<&str>::empty(), false),
        def_spec("restructuredtext", seq!["rst"], Seq::<&str>::empty(), false),
        def_spec("rsa", seq!["pub"], seq!["id_rsa", "id_rsa.pub"], false),
        def_spec("ruby", seq!["erb", "gemspec", "podspec", "rake", "rb", "rbi", "rbx", "rjs", "ru"], seq!["Gemfile", "appfile", "appraisals", "berksfile", "berksfile.lock", "brewfile", "capfile", "cheffile", "dangerfile", "deliverfile", "fastfile", "gemfile", "guardfile", "gymfile", "hobofile", "matchfile", "podfile", "puppetfile", "rakefile", "rantfile", "scanfile", "snapfile", "thorfile", "vagrantfile"], false),
        def_spec("rust", seq!["rs"], Seq::<&str>::empty(), false),
        def_spec("sass", seq!["sass"], Seq::<&str>::empty(), false),
        def_spec("scala", seq!["sbt", "sc", "scala"], Seq::<&str>::empty(), false),
        def_spec("scss", seq!["scss"], Seq::<&str>::empty(), false),
        def_spec("search-result", seq!["code-search"], Seq::<&str>::empty(), false),
        def_spec("shaderlab", seq!["cginc", "shader"], Seq::<&str>::empty(), false),
        def_spec("shellscript", seq!["Xsession", "bash", "bash_aliases", "bash_login", "bash_logout", "bash_profile", "bashrc", "csh", "cshrc", "ebuild", "eclass", "fish", "install", "ksh", "profile", "sh", "tcshrc", "xprofile", "xsession", "xsessionrc", "yash_profile", "yashrc", "zlogin", "zlogout", "zprofile", "zsh", "zsh-theme", "zshenv", "zshrc"], seq![".env.*", ".envrc", ".hushlogin", "APKBUILD", "PKGBUILD", "bashrc_Apple_Terminal", "zlogin", "zlogout", "zprofile", "zshenv", "zshrc", "zshrc_Apple_Terminal"], false),
        def_spec("snippets", seq!["code-snippets"], Seq::<&str>::empty(), false),
        def_spec("sql", seq!["dsql", "sql"], Seq::<&str>::empty(), false),
        def_spec("stylus", seq!["styl"], Seq::<&str>::empty(), false),
        def_spec("svelte", seq!["svelte"], Seq::<&str>::empty(), false),
        def_spec("swift", seq!["swift"], Seq::<&str>::empty(), false),
        def_spec("terraform", seq!["hcl", "tf", "tf.json", "tfvars"], Seq::<&str>::empty(), false),
        def_spec("tex", seq!["bbx", "cbx", "cls", "sty"], Seq::<&str>::empty(), false),
        def_spec("tfvars", seq!["tfvars"], Seq::<&str>::empty(), false),
        def_spec("todo", Seq::<&str>::empty(), seq!["todo"], false),
        def_spec("toml", seq!["toml"], seq!["Cargo.lock", "Cargo.toml"], false),
    ]
}

/// Part 5 of the built-in table, as the lookups read it.
pub open spec fn builtin_part_5() -> Seq<DefView> {
    seq![
        def_spec("typescript", seq!["cts", "mts", "ts"], Seq::<&str>::empty(), false),
        def_spec("typescriptreact", seq!["tsx"], Seq::<&str>::empty(), false),
        def_spec("typst", seq!["typst"], Seq::<&str>::empty(), false),
        def_spec("vala", seq!["vala"], Seq::<&str>::empty(), false),
        def_spec("vb", seq!["bas", "brs", "vb", "vba", "vbs"], Seq::<&str>::empty(), false),
        def_spec("vue", seq!["vue"], Seq::<&str>::empty(), false),
        def_spec("xml", seq!["ascx", "atom", "axaml", "axml", "bpmn", "config", "cpt", "csl", "csproj", "csproj.user", "dita", "ditamap", "dtd", "dtml", "ent", "fsproj", "fxml", "iml", "isml", "jmx", "launch", "menu", "mod", "mxml", "nuspec", "opml", "owl", "proj", "props", "pt", "publishsettings", "pubxml", "pubxml.user", "rbxlx", "rbxmx", "rdf", "rng", "rss", "shproj", "storyboard", "svg", "targets", "tld", "tmx", "vbproj", "vbproj.user", "vcxproj", "vcxproj.filters", "wsdl", "wxi", "wxl", "wxs", "xaml", "xbl", "xib", "xlf", "xliff", "xml", "xoml", "xpdl", "xsd", "xul"], Seq::<&str>::empty(), false),
        def_spec("xsl", seq!["xsl", "xslt"], Seq::<&str>::empty(), false),
        def_spec("yaml", seq!["cff", "eyaml", "eyml", "yaml", "yaml-tmlanguage", "yaml-tmpreferences", "yaml-tmtheme", "yml"], Seq::<&str>::empty(), false),
        def_spec("binary", seq!["bin", "cur", "dll", "eot", "exe", "gz", "lib", "o", "obj", "phar", "zip"], Seq::<&str>::empty(), true),
        def_spec("dll", seq!["dll"], Seq::<&str>::empty(), true),
        def_spec("exe", seq!["exe"], Seq::<&str>::empty(), true),
        def_spec("fonts", seq!["ttf", "woff", "woff2"], Seq::<&str>::empty(), true),
        def_spec("gzip", seq!["gz"], Seq::<&str>::empty(), true),
        def_spec("image", seq!["bmp", "exr", "gif", "heic", "ico", "jpeg", "jpg", "pbm", "pgm", "png", "ppm", "ras", "sgi", "tiff", "webp", "xbm"], Seq::<&str>::empty(), true),
        def_spec("jar", seq!["jar"], Seq::<&str>::empty(), true),
        def_spec("mdb", seq!["mdb"], Seq::<&str>::empty(), true),
        def_spec("object-file", seq!["o", "obj"], Seq::<&str>::empty(), true),
        def_spec("spv", seq!["spv"], Seq::<&str>::empty(), true),
        def_spec("trie", seq!["trie"], Seq::<&str>::empty(), true),
        def_spec("video", seq!["avi", "flv", "mkv", "mov", "mp4", "mpeg", "mpg", "wmv"], Seq::<&str>::empty(), true),
        def_spec("webm", seq!["webm"], Seq::<&str>::empty(), true),
        def_spec("wheel", seq!["whl"], Seq::<&str>::empty(), true),
    ]
}

/// The built-in table, as the lookups read it.
pub open spec fn builtin_table() -> Seq<DefView> {
    builtin_part_1() + builtin_part_2() + builtin_part_3() + builtin_part_4() + builtin_part_5()
}

#[verifier::rlimit(50)]
fn add_part_1(defs: &mut Vec<FileTypeDefinition>)
    requires
        all_dotted(old(defs)@),
    ensures
        all_dotted(final(defs)@),
        def_views(final(defs)@) == def_views(old(defs)@) + builtin_part_1(),
{
    let ghost start = def_views(defs@);
    let exts: Vec<&str> = vec!["adb", "ads"];
    assert(exts@ =~= seq!["adb", "ads"]);
    push_def(defs, entry("ada", exts, None, None, None));
    let exts: Vec<&str> = vec!["apib", "apiblueprint"];
    assert(exts@ =~= seq!["apib", "apiblueprint"]);
    push_def(defs, entry("apiblueprint", exts, None, None, None));
    let exts: Vec<&str> = vec!["ad", "adown", "argdn", "argdown"];
    assert(exts@ =~= seq!["ad", "adown", "argdn", "argdown"]);
    push_def(defs, entry("argdown", exts, None, None, None));
    let exts: Vec<&str> = vec!["adoc", "asc", "asciidoc"];
    assert(exts@ =~= seq!["adoc", "asc", "asciidoc"]);
    push_def(defs, entry("asciidoc", exts, None, None, None));
    let exts: Vec<&str> = vec!["bat", "cmd"];
    assert(exts@ =~= seq!["bat", "cmd"]);
    push_def(defs, entry("bat", exts, None, None, None));
    let exts: Vec<&str> = vec!["bazel", "bzl"];
    assert(exts@ =~= seq!["bazel", "bzl"]);
    push_def(defs, entry("bazel", exts, None, None, None));
    let exts: Vec<&str> = vec!["bib"];
    assert(exts@ =~= seq!["bib"]);
    push_def(defs, entry("bibtex", exts, None, None, None));
    let exts: Vec<&str> = vec!["bicep"];
    assert(exts@ =~= seq!["bicep"]);
    push_def(defs, entry("bicep", exts, None, None, None));
    let exts: Vec<&str> = vec!["c", "i"];
    assert(exts@ =~= seq!["c", "i"]);
    push_def(defs, entry("c", exts, None, None, None));
    let exts: Vec<&str> = vec![];
    assert(exts@ =~= Seq::<&str>::empty());
    let names: Vec<&str> = vec![".DS_Store", ".cspellcache", ".eslintcache"];
    assert(names@ =~= seq![".DS_Store", ".cspellcache", ".eslintcache"]);
    push_def(defs, entry("cache_files", exts, Some(names), None, None));
    let exts: Vec<&str> = vec!["clj", "cljc", "cljs", "cljx", "clojure", "edn"];
    assert(exts@ =~= seq!["clj", "cljc", "cljs", "cljx", "clojure", "edn"]);
    push_def(defs, entry("clojure", exts, None, None, None));
    let exts: Vec<&str> = vec!["cmake"];
    assert(exts@ =~= seq!["cmake"]);
    let names: Vec<&str> = vec!["CMakeLists.txt"];
    assert(names@ =~= seq!["CMakeLists.txt"]);
    push_def(defs, entry("cmake", exts, Some(names), None, None));
    let exts: Vec<&str> = vec!["coffee", "cson", "iced"];
    assert(exts@ =~= seq!["coffee", "cson", "iced"]);
    push_def(defs, entry("coffeescript", exts, None, None, None));
    let exts: Vec<&str> = vec!["c++", "c++m", "cc", "ccm", "cpp", "cppm", "cxx", "cxxm", "h", "h++", "h.in", "hh", "hpp", "hpp.in", "hxx", "ii", "inl", "ino", "ipp", "ixx", "mm", "tpp", "txx"];
    assert(exts@ =~= seq!["c++", "c++m", "cc", "ccm", "cpp", "cppm", "cxx", "cxxm", "h", "h++", "h.in", "hh", "hpp", "hpp.in", "hxx", "ii", "inl", "ino", "ipp", "ixx", "mm", "tpp", "txx"]);
    push_def(defs, entry("cpp", exts, None, None, None));
    let exts: Vec<&str> = vec![];
    assert(exts@ =~= Seq::<&str>::empty());
    push_def(defs, entry("cpp_embedded_latex", exts, None, None, None));
    let exts: Vec<&str> = vec!["cake", "cs", "csx"];
    assert(exts@ =~= seq!["cake", "cs", "csx"]);
    push_def(defs, entry("csharp", exts, None, None, None));
    let exts: Vec<&str> = vec!["css"];
    assert(exts@ =~= seq!["css"]);
    push_def(defs, entry("css", exts, None, None, None));
    let exts: Vec<&str> = vec!["cu", "cuh"];
    assert(exts@ =~= seq!["cu", "cuh"]);
    push_def(defs, entry("cuda-cpp", exts, None, None, None));
    let exts: Vec<&str> = vec!["dart"];
    assert(exts@ =~= seq!["dart"]);
    push_def(defs, entry("dart", exts, None, None, None));
    let exts: Vec<&str> = vec!["dhall"];
    assert(exts@ =~= seq!["dhall"]);
    push_def(defs, entry("dhall", exts, None, None, None));
    let exts: Vec<&str> = vec!["diff", "patch", "rej"];
    assert(exts@ =~= seq!["diff", "patch", "rej"]);
    push_def(defs, entry("diff", exts, None, None, None));
    let exts: Vec<&str> = vec![];
    assert(exts@ =~= Seq::<&str>::empty());
    let names: Vec<&str> = vec!["*docker*compose*.yaml", "*docker*compose*.yml", "compose.*.yaml", "compose.*.yml", "compose.yaml", "compose.yml"];
    assert(names@ =~= seq!["*docker*compose*.yaml", "*docker*compose*.yml", "compose.*.yaml", "compose.*.yml", "compose.yaml", "compose.yml"]);
    push_def(defs, entry("dockercompose", exts, Some(names), None, None));
    let exts: Vec<&str> = vec!["containerfile", "dockerfile"];
    assert(exts@ =~= seq!["containerfile", "dockerfile"]);
    let names: Vec<&str> = vec!["*.Dockerfile.*", "Containerfile", "Containerfile.*", "Dockerfile", "Dockerfile.*", "Dockerfile.dev", "dockerfile"];
    assert(names@ =~= seq!["*.Dockerfile.*", "Containerfile", "Containerfile.*", "Dockerfile", "Dockerfile.*", "Dockerfile.dev", "dockerfile"]);
    push_def(defs, entry("dockerfile", exts, Some(names), None, None));
    let exts: Vec<&str> = vec!["el"];
    assert(exts@ =~= seq!["el"]);
    push_def(defs, entry("elisp", exts, None, None, None));
    let exts: Vec<&str> = vec!["ex", "exs"];
    assert(exts@ =~= seq!["ex", "exs"]);
    push_def(defs, entry("elixir", exts, None, None, None));
    let exts: Vec<&str> = vec!["elm"];
    assert(exts@ =~= seq!["elm"]);
    push_def(defs, entry("elm", exts, None, None, None));
    let exts: Vec<&str> = vec!["erb", "html.erb", "rhtml"];
    assert(exts@ =~= seq!["erb", "html.erb", "rhtml"]);
    push_def(defs, entry("erb", exts, None, None, None));
    let exts: Vec<&str> = vec!["fs", "fsi", "fsscript", "fsx"];
    assert(exts@ =~= seq!["fs", "fsi", "fsscript", "fsx"]);
    push_def(defs, entry("fsharp", exts, None, None, None));
    assert(def_views(defs@) =~= start + builtin_part_1());
}

#[verifier::rlimit(50)]
fn add_part_2(defs: &mut Vec<FileTypeDefinition>)
    requires
        all_dotted(old(defs)@),
    ensures
        all_dotted(final(defs)@),
        def_views(final(defs)@) == def_views(old(defs)@) + builtin_part_2(),
{
    let ghost start = def_views(defs@);
    let exts: Vec<&str> = vec![];
    assert(exts@ =~= Seq::<&str>::empty());
    let names: Vec<&str> = vec!["COMMIT_EDITMSG", "MERGE_MSG"];
    assert(names@ =~= seq!["COMMIT_EDITMSG", "MERGE_MSG"]);
    push_def(defs, entry("git-commit", exts, Some(names), None, None));
    let exts: Vec<&str> = vec![];
    assert(exts@ =~= Seq::<&str>::empty());
    let names: Vec<&str> = vec!["git-rebase-todo"];
    assert(names@ =~= seq!["git-rebase-todo"]);
    push_def(defs, entry("git-rebase", exts, Some(names), None, None));
    let exts: Vec<&str> = vec!["github-issues"];
    assert(exts@ =~= seq!["github-issues"]);
    push_def(defs, entry("github-issues", exts, None, None, None));
    let exts: Vec<&str> = vec!["go"];
    assert(exts@ =~= seq!["go"]);
    push_def(defs, entry("go", exts, None, None, None));
    let exts: Vec<&str> = vec!["gd", "godot", "tres", "tscn"];
    assert(exts@ =~= seq!["gd", "godot", "tres", "tscn"]);
    push_def(defs, entry("godot", exts, None, None, None));
    let exts: Vec<&str> = vec!["gradle"];
    assert(exts@ =~= seq!["gradle"]);
    push_def(defs, entry("gradle", exts, None, None, None));
    let exts: Vec<&str> = vec!["gradle", "groovy", "gvy", "jenkinsfile", "nf"];
    assert(exts@ =~= seq!["gradle", "groovy", "gvy", "jenkinsfile", "nf"]);
    let names: Vec<&str> = vec!["Jenkinsfile", "Jenkinsfile*"];
    assert(names@ =~= seq!["Jenkinsfile", "Jenkinsfile*"]);
    push_def(defs, entry("groovy", exts, Some(names), None, None));
    let exts: Vec<&str> = vec!["haml"];
    assert(exts@ =~= seq!["haml"]);
    push_def(defs, entry("haml", exts, None, None, None));
    let exts: Vec<&str> = vec!["handlebars", "hbs", "hjs"];
    assert(exts@ =~= seq!["handlebars", "hbs", "hjs"]);
    push_def(defs, entry("handlebars", exts, None, None, None));
    let exts: Vec<&str> = vec!["hs", "lhs"];
    assert(exts@ =~= seq!["hs", "lhs"]);
    push_def(defs, entry("haskell", exts, None, None, None));
    let exts: Vec<&str> = vec!["hx"];
    assert(exts@ =~= seq!["hx"]);
    push_def(defs, entry("haxe", exts, None, None, None));
    let exts: Vec<&str> = vec!["cginc", "compute", "fx", "fxh", "hlsl", "hlsli", "psh", "vsh"];
    assert(exts@ =~= seq!["cginc", "compute", "fx", "fxh", "hlsl", "hlsli", "psh", "vsh"]);
    push_def(defs, entry("hlsl", exts, None, None, None));
    let exts: Vec<&str> = vec!["asp", "aspx", "ejs", "htm", "html", "jshtm", "jsp", "mdoc", "rhtml", "shtml", "volt", "vue", "xht", "xhtml"];
    assert(exts@ =~= seq!["asp", "aspx", "ejs", "htm", "html", "jshtm", "jsp", "mdoc", "rhtml", "shtml", "volt", "vue", "xht", "xhtml"]);
    push_def(defs, entry("html", exts, None, None, None));
    let exts: Vec<&str> = vec!["git-blame-ignore-revs", "gitignore", "gitignore_global", "npmignore"];
    assert(exts@ =~= seq!["git-blame-ignore-revs", "gitignore", "gitignore_global", "npmignore"]);
    let names: Vec<&str> = vec![".vscodeignore"];
    assert(names@ =~= seq![".vscodeignore"]);
    push_def(defs, entry("ignore", exts, Some(names), None, None));
    let exts: Vec<&str> = vec!["conf", "ini"];
    assert(exts@ =~= seq!["conf", "ini"]);
    push_def(defs, entry("ini", exts, None, None, None));
    let exts: Vec<&str> = vec!["jade", "pug"];
    assert(exts@ =~= seq!["jade", "pug"]);
    push_def(defs, entry("jade", exts, None, None, None));
    let exts: Vec<&str> = vec!["jav", "java"];
    assert(exts@ =~= seq!["jav", "java"]);
    push_def(defs, entry("java", exts, None, None, None));
    let exts: Vec<&str> = vec!["cjs", "es6", "js", "mjs", "pac"];
    assert(exts@ =~= seq!["cjs", "es6", "js", "mjs", "pac"]);
    let names: Vec<&str> = vec!["jakefile"];
    assert(names@ =~= seq!["jakefile"]);
    push_def(defs, entry("javascript", exts, Some(names), None, None));
    let exts: Vec<&str> = vec!["jsx"];
    assert(exts@ =~= seq!["jsx"]);
    push_def(defs, entry("javascriptreact", exts, None, None, None));
    let exts: Vec<&str> = vec!["jinja"];
    assert(exts@ =~= seq!["jinja"]);
    push_def(defs, entry("jinja", exts, None, None, None));
    let exts: Vec<&str> = vec!["babelrc", "bowerrc", "code-profile", "css.map", "eslintrc", "geojson", "har", "ipynb", "js.map", "jscsrc", "jshintrc", "jslintrc", "json", "jsonc", "jsonld", "ts.map", "tsbuildinfo", "vuerc", "webmanifest"];
    assert(exts@ =~= seq!["babelrc", "bowerrc", "code-profile", "css.map", "eslintrc", "geojson", "har", "ipynb", "js.map", "jscsrc", "jshintrc", "jslintrc", "json", "jsonc", "jsonld", "ts.map", "tsbuildinfo", "vuerc", "webmanifest"]);
    let names: Vec<&str> = vec![".watchmanconfig", "composer.lock"];
    assert(names@ =~= seq![".watchmanconfig", "composer.lock"]);
    push_def(defs, entry("json", exts, Some(names), None, None));
    let exts: Vec<&str> = vec!["babelrc", "code-workspace", "color-theme.json", "eslintrc", "eslintrc.json", "hintrc", "icon-theme.json", "jsfmtrc", "jshintrc", "jsonc", "language-configuration.json", "swcrc"];
    assert(exts@ =~= seq!["babelrc", "code-workspace", "color-theme.json", "eslintrc", "eslintrc.json", "hintrc", "icon-theme.json", "jsfmtrc", "jshintrc", "jsonc", "language-configuration.json", "swcrc"]);
    let names: Vec<&str> = vec![".babelrc.json", ".code-workspace", ".devcontainer.json", ".ember-cli", "argv.json", "babel.config.json", "devcontainer.json", "extensions.json", "jsconfig-*.json", "jsconfig.*.json", "jsconfig.json", "keybindings.json", "launch.json", "profiles.json", "settings.json", "tasks.json", "tsconfig-*.json", "tsconfig.*.json", "tsconfig.json", "typedoc.json"];
    assert(names@ =~= seq![".babelrc.json", ".code-workspace", ".devcontainer.json", ".ember-cli", "argv.json", "babel.config.json", "devcontainer.json", "extensions.json", "jsconfig-*.json", "jsconfig.*.json", "jsconfig.json", "keybindings.json", "launch.json", "profiles.json", "settings.json", "tasks.json", "tsconfig-*.json", "tsconfig.*.json", "tsconfig.json", "typedoc.json"]);
    push_def(defs, entry("jsonc", exts, Some(names), None, None));
    let exts: Vec<&str> = vec!["jsonl"];
    assert(exts@ =~= seq!["jsonl"]);
    push_def(defs, entry("jsonl", exts, None, None, None));
    let exts: Vec<&str> = vec![];
    assert(exts@ =~= Seq::<&str>::empty());
    push_def(defs, entry("jsx-tags", exts, None, None, None));
    let exts: Vec<&str> = vec!["jl"];
    assert(exts@ =~= seq!["jl"]);
    push_def(defs, entry("julia", exts, None, None, None));
    let exts: Vec<&str> = vec!["jmd"];
    assert(exts@ =~= seq!["jmd"]);
    push_def(defs, entry("juliamarkdown", exts, None, None, None));
    let exts: Vec<&str> = vec!["jungle"];
    assert(exts@ =~= seq!["jungle"]);
    push_def(defs, entry("jungle", exts, None, None, None));
    let exts: Vec<&str> = vec!["kt"];
    assert(exts@ =~= seq!["kt"]);
    push_def(defs, entry("kotlin", exts, None, None, None));
    assert(def_views(defs@) =~= start + builtin_part_2());
}

#[verifier::rlimit(50)]
fn add_part_3(defs: &mut Vec<FileTypeDefinition>)
    requires
        all_dotted(old(defs)@),
    ensures
        all_dotted(final(defs)@),
        def_views(final(defs)@) == def_views(old(defs)@) + builtin_part_3(),
{
    let ghost start = def_views(defs@);
    let exts: Vec<&str> = vec!["ctx", "ltx", "tex"];
    assert(exts@ =~= seq!["ctx", "ltx", "tex"]);
    push_def(defs, entry("latex", exts, None, None, None));
    let exts: Vec<&str> = vec!["less"];
    assert(exts@ =~= seq!["less"]);
    push_def(defs, entry("less", exts, None, None, None));
    let exts: Vec<&str> = vec!["fasl", "l", "lisp", "lsp"];
    assert(exts@ =~= seq!["fasl", "l", "lisp", "lsp"]);
    push_def(defs, entry("lisp", exts, None, None, None));
    let exts: Vec<&str> = vec!["lhs"];
    assert(exts@ =~= seq!["lhs"]);
    push_def(defs, entry("literate haskell", exts, None, None, None));
    let exts: Vec<&str> = vec!["lock"];
    assert(exts@ =~= seq!["lock"]);
    let names: Vec<&str> = vec!["Cargo.lock", "berksfile.lock", "composer.lock", "package-lock.json"];
    assert(names@ =~= seq!["Cargo.lock", "berksfile.lock", "composer.lock", "package-lock.json"]);
    push_def(defs, entry("lock", exts, Some(names), None, None));
    let exts: Vec<&str> = vec!["log"];
    assert(exts@ =~= seq!["log"]);
    let names: Vec<&str> = vec!["*.log.?"];
    assert(names@ =~= seq!["*.log.?"]);
    push_def(defs, entry("log", exts, Some(names), None, None));
    let exts: Vec<&str> = vec!["lua"];
    assert(exts@ =~= seq!["lua"]);
    push_def(defs, entry("lua", exts, None, None, None));
    let exts: Vec<&str> = vec!["mak", "mk"];
    assert(exts@ =~= seq!["mak", "mk"]);
    let names: Vec<&str> = vec!["GNUmakefile", "Makefile", "OCamlMakefile", "makefile"];
    assert(names@ =~= seq!["GNUmakefile", "Makefile", "OCamlMakefile", "makefile"]);
    push_def(defs, entry("makefile", exts, Some(names), None, None));
    let exts: Vec<&str> = vec!["map", "css.map", "ts.map", "js.map"];
    assert(exts@ =~= seq!["map", "css.map", "ts.map", "js.map"]);
    push_def(defs, entry("map", exts, None, None, None));
    let exts: Vec<&str> = vec!["markdn", "markdown", "md", "mdown", "mdtext", "mdtxt", "mdwn", "mkd", "workbook"];
    assert(exts@ =~= seq!["markdn", "markdown", "md", "mdown", "mdtext", "mdtxt", "mdwn", "mkd", "workbook"]);
    push_def(defs, entry("markdown", exts, None, None, None));
    let exts: Vec<&str> = vec![];
    assert(exts@ =~= Seq::<&str>::empty());
    push_def(defs, entry("markdown_latex_combined", exts, None, None, None));
    let exts: Vec<&str> = vec![];
    assert(exts@ =~= Seq::<&str>::empty());
    push_def(defs, entry("markdown-math", exts, None, None, None));
    let exts: Vec<&str> = vec!["mdx"];
    assert(exts@ =~= seq!["mdx"]);
    push_def(defs, entry("mdx", exts, None, None, None));
    let exts: Vec<&str> = vec!["mb", "mc"];
    assert(exts@ =~= seq!["mb", "mc"]);
    push_def(defs, entry("monkeyc", exts, None, None, None));
    let exts: Vec<&str> = vec!["mst", "mu", "mustache", "stache"];
    assert(exts@ =~= seq!["mst", "mu", "mustache", "stache"]);
    push_def(defs, entry("mustache", exts, None, None, None));
    let exts: Vec<&str> = vec!["nix"];
    assert(exts@ =~= seq!["nix"]);
    push_def(defs, entry("nix", exts, None, None, None));
    let exts: Vec<&str> = vec!["nj", "njk", "nunj", "nunjs", "nunjucks", "tmpl", "tpl"];
    assert(exts@ =~= seq!["nj", "njk", "nunj", "nunjs", "nunjucks", "tmpl", "tpl"]);
    push_def(defs, entry("nunjucks", exts, None, None, None));
    let exts: Vec<&str> = vec!["m"];
    assert(exts@ =~= seq!["m"]);
    push_def(defs, entry("objective-c", exts, None, None, None));
    let exts: Vec<&str> = vec!["mm"];
    assert(exts@ =~= seq!["mm"]);
    push_def(defs, entry("objective-cpp", exts, None, None, None));
    let exts: Vec<&str> = vec!["eliom", "eliomi", "ml", "mli", "mll", "mly"];
    assert(exts@ =~= seq!["eliom", "eliomi", "ml", "mli", "mll", "mly"]);
    push_def(defs, entry("ocaml", exts, None, None, None));
    let exts: Vec<&str> = vec!["pdf"];
    assert(exts@ =~= seq!["pdf"]);
    push_def(defs, entry("pdf", exts, None, None, None));
    let exts: Vec<&str> = vec!["pem", "private-key.pem"];
    assert(exts@ =~= seq!["pem", "private-key.pem"]);
    push_def(defs, entry("pem", exts, None, None, None));
    let exts: Vec<&str> = vec!["private-key.pem"];
    assert(exts@ =~= seq!["private-key.pem"]);
    push_def(defs, entry("pem-private-key", exts, None, None, None));
    let exts: Vec<&str> = vec!["PL", "pl", "pm", "pod", "psgi", "t"];
    assert(exts@ =~= seq!["PL", "pl", "pm", "pod", "psgi", "t"]);
    push_def(defs, entry("perl", exts, None, None, None));
    let exts: Vec<&str> = vec!["nqp", "p6", "pl6", "pm6"];
    assert(exts@ =~= seq!["nqp", "p6", "pl6", "pm6"]);
    push_def(defs, entry("perl6", exts, None, None, None));
    let exts: Vec<&str> = vec!["ctp", "php", "php4", "php5", "phtml"];
    assert(exts@ =~= seq!["ctp", "php", "php4", "php5", "phtml"]);
    push_def(defs, entry("php", exts, None, None, None));
    let exts: Vec<&str> = vec!["txt"];
    assert(exts@ =~= seq!["txt"]);
    push_def(defs, entry("plaintext", exts, None, None, None));
    let exts: Vec<&str> = vec!["ps1", "psd1", "psm1", "psrc", "pssc"];
    assert(exts@ =~= seq!["ps1", "psd1", "psm1", "psrc", "pssc"]);
    push_def(defs, entry("powershell", exts, None, None, None));
    assert(def_views(defs@) =~= start + builtin_part_3());
}

#[verifier::rlimit(50)]
fn add_part_4(defs: &mut Vec<FileTypeDefinition>)
    requires
        all_dotted(old(defs)@),
    ensures
        all_dotted(final(defs)@),
        def_views(final(defs)@) == def_views(old(defs)@) + builtin_part_4(),
{
    let ghost start = def_views(defs@);
    let exts: Vec<&str> = vec!["cfg", "conf", "directory", "editorconfig", "gitattributes", "gitconfig", "gitmodules", "npmrc", "properties", "repo"];
    assert(exts@ =~= seq!["cfg", "conf", "directory", "editorconfig", "gitattributes", "gitconfig", "gitmodules", "npmrc", "properties", "repo"]);
    let names: Vec<&str> = vec![".env", "gitconfig"];
    assert(names@ =~= seq![".env", "gitconfig"]);
    push_def(defs, entry("properties", exts, Some(names), None, None));
    let exts: Vec<&str> = vec!["puppet"];
    assert(exts@ =~= seq!["puppet"]);
    push_def(defs, entry("puppet", exts, None, None, None));
    let exts: Vec<&str> = vec!["purs"];
    assert(exts@ =~= seq!["purs"]);
    push_def(defs, entry("purescript", exts, None, None, None));
    let exts: Vec<&str> = vec!["cpy", "gyp", "gypi", "ipy", "py", "pyi", "pyt", "pyw", "rpy"];
    assert(exts@ =~= seq!["cpy", "gyp", "gypi", "ipy", "py", "pyi", "pyt", "pyw", "rpy"]);
    let names: Vec<&str> = vec!["SConscript", "SConstruct"];
    assert(names@ =~= seq!["SConscript", "SConstruct"]);
    push_def(defs, entry("python", exts, Some(names), None, None));
    let exts: Vec<&str> = vec!["R", "r", "rhistory", "rprofile", "rt"];
    assert(exts@ =~= seq!["R", "r", "rhistory", "rprofile", "rt"]);
    push_def(defs, entry("r", exts, None, None, None));
    let exts: Vec<&str> = vec!["nqp", "p6", "pl6", "pm6", "raku", "rakudoc", "rakumod", "rakutest"];
    assert(exts@ =~= seq!["nqp", "p6", "pl6", "pm6", "raku", "rakudoc", "rakumod", "rakutest"]);
    push_def(defs, entry("raku", exts, None, None, None));
    let exts: Vec<&str> = vec!["cshtml", "razor"];
    assert(exts@ =~= seq!["cshtml", "razor"]);
    push_def(defs, entry("razor", exts, None, None, None));
    let exts: Vec<&str> = vec!["res", "resi"];
    assert(exts@ =~= seq!["res", "resi"]);
    push_def(defs, entry("rescript", exts, None, None, None));
    let exts: Vec<&str> = vec!["rst"];
    assert(exts@ =~= seq!["rst"]);
    push_def(defs, entry("restructuredtext", exts, None, None, None));
    let exts: Vec<&str> = vec!["pub"];
    assert(exts@ =~= seq!["pub"]);
    let names: Vec<&str> = vec!["id_rsa", "id_rsa.pub"];
    assert(names@ =~= seq!["id_rsa", "id_rsa.pub"]);
    push_def(defs, entry("rsa", exts, Some(names), None, None));
    let exts: Vec<&str> = vec!["erb", "gemspec", "podspec", "rake", "rb", "rbi", "rbx", "rjs", "ru"];
    assert(exts@ =~= seq!["erb", "gemspec", "podspec", "rake", "rb", "rbi", "rbx", "rjs", "ru"]);
    let names: Vec<&str> = vec!["Gemfile", "appfile", "appraisals", "berksfile", "berksfile.lock", "brewfile", "capfile", "cheffile", "dangerfile", "deliverfile", "fastfile", "gemfile", "guardfile", "gymfile", "hobofile", "matchfile", "podfile", "puppetfile", "rakefile", "rantfile", "scanfile", "snapfile", "thorfile", "vagrantfile"];
    assert(names@ =~= seq!["Gemfile", "appfile", "appraisals", "berksfile", "berksfile.lock", "brewfile", "capfile", "cheffile", "dangerfile", "deliverfile", "fastfile", "gemfile", "guardfile", "gymfile", "hobofile", "matchfile", "podfile", "puppetfile", "rakefile", "rantfile", "scanfile", "snapfile", "thorfile", "vagrantfile"]);
    push_def(defs, entry("ruby", exts, Some(names), None, None));
    let exts: Vec<&str> = vec!["rs"];
    assert(exts@ =~= seq!["rs"]);
    push_def(defs, entry("rust", exts, None, None, None));
    let exts: Vec<&str> = vec!["sass"];
    assert(exts@ =~= seq!["sass"]);
    push_def(defs, entry("sass", exts, None, None, None));
    let exts: Vec<&str> = vec!["sbt", "sc", "scala"];
    assert(exts@ =~= seq!["sbt", "sc", "scala"]);
    push_def(defs, entry("scala", exts, None, None, None));
    let exts: Vec<&str> = vec!["scss"];
    assert(exts@ =~= seq!["scss"]);
    push_def(defs, entry("scss", exts, None, None, None));
    let exts: Vec<&str> = vec!["code-search"];
    assert(exts@ =~= seq!["code-search"]);
    push_def(defs, entry("search-result", exts, None, None, None));
    let exts: Vec<&str> = vec!["cginc", "shader"];
    assert(exts@ =~= seq!["cginc", "shader"]);
    push_def(defs, entry("shaderlab", exts, None, None, None));
    let exts: Vec<&str> = vec!["Xsession", "bash", "bash_aliases", "bash_login", "bash_logout", "bash_profile", "bashrc", "csh", "cshrc", "ebuild", "eclass", "fish", "install", "ksh", "profile", "sh", "tcshrc", "xprofile", "xsession", "xsessionrc", "yash_profile", "yashrc", "zlogin", "zlogout", "zprofile", "zsh", "zsh-theme", "zshenv", "zshrc"];
    assert(exts@ =~= seq!["Xsession", "bash", "bash_aliases", "bash_login", "bash_logout", "bash_profile", "bashrc", "csh", "cshrc", "ebuild", "eclass", "fish", "install", "ksh", "profile", "sh", "tcshrc", "xprofile", "xsession", "xsessionrc", "yash_profile", "yashrc", "zlogin", "zlogout", "zprofile", "zsh", "zsh-theme", "zshenv", "zshrc"]);
    let names: Vec<&str> = vec![".env.*", ".envrc", ".hushlogin", "APKBUILD", "PKGBUILD", "bashrc_Apple_Terminal", "zlogin", "zlogout", "zprofile", "zshenv", "zshrc", "zshrc_Apple_Terminal"];
    assert(names@ =~= seq![".env.*", ".envrc", ".hushlogin", "APKBUILD", "PKGBUILD", "bashrc_Apple_Terminal", "zlogin", "zlogout", "zprofile", "zshenv", "zshrc", "zshrc_Apple_Terminal"]);
    push_def(defs, entry("shellscript", exts, Some(names), None, None));
    let exts: Vec<&str> = vec!["code-snippets"];
    assert(exts@ =~= seq!["code-snippets"]);
    push_def(defs, entry("snippets", exts, None, None, None));
    let exts: Vec<&str> = vec!["dsql", "sql"];
    assert(exts@ =~= seq!["dsql", "sql"]);
    push_def(defs, entry("sql", exts, None, None, None));
    let exts: Vec<&str> = vec!["styl"];
    assert(exts@ =~= seq!["styl"]);
    push_def(defs, entry("stylus", exts, None, None, None));
    let exts: Vec<&str> = vec!["svelte"];
    assert(exts@ =~= seq!["svelte"]);
    push_def(defs, entry("svelte", exts, None, None, None));
    let exts: Vec<&str> = vec!["swift"];
    assert(exts@ =~= seq!["swift"]);
    push_def(defs, entry("swift", exts, None, None, None));
    let exts: Vec<&str> = vec!["hcl", "tf", "tf.json", "tfvars"];
    assert(exts@ =~= seq!["hcl", "tf", "tf.json", "tfvars"]);
    push_def(defs, entry("terraform", exts, None, None, None));
    let exts: Vec<&str> = vec!["bbx", "cbx", "cls", "sty"];
    assert(exts@ =~= seq!["bbx", "cbx", "cls", "sty"]);
    push_def(defs, entry("tex", exts, None, None, None));
    let exts: Vec<&str> = vec!["tfvars"];
    assert(exts@ =~= seq!["tfvars"]);
    push_def(defs, entry("tfvars", exts, None, None, Some("Terraform Variables")));
    let exts: Vec<&str> = vec![];
    assert(exts@ =~= Seq::<&str>::empty());
    let names: Vec<&str> = vec!["todo"];
    assert(names@ =~= seq!["todo"]);
    push_def(defs, entry("todo", exts, Some(names), None, None));
    let exts: Vec<&str> = vec!["toml"];
    assert(exts@ =~= seq!["toml"]);
    let names: Vec<&str> = vec!["Cargo.lock", "Cargo.toml"];
    assert(names@ =~= seq!["Cargo.lock", "Cargo.toml"]);
    push_def(defs, entry("toml", exts, Some(names), None, None));
    assert(def_views(defs@) =~= start + builtin_part_4());
}

#[verifier::rlimit(50)]
fn add_part_5(defs: &mut Vec<FileTypeDefinition>)
    requires
        all_dotted(old(defs)@),
    ensures
        all_dotted(final(defs)@),
        def_views(final(defs)@) == def_views(old(defs)@) + builtin_part_5(),
{
    let ghost start = def_views(defs@);
    let exts: Vec<&str> = vec!["cts", "mts", "ts"];
    assert(exts@ =~= seq!["cts", "mts", "ts"]);
    push_def(defs, entry("typescript", exts, None, None, None));
    let exts: Vec<&str> = vec!["tsx"];
    assert(exts@ =~= seq!["tsx"]);
    push_def(defs, entry("typescriptreact", exts, None, None, None));
    let exts: Vec<&str> = vec!["typst"];
    assert(exts@ =~= seq!["typst"]);
    push_def(defs, entry("typst", exts, None, None, None));
    let exts: Vec<&str> = vec!["vala"];
    assert(exts@ =~= seq!["vala"]);
    push_def(defs, entry("vala", exts, None, None, None));
    let exts: Vec<&str> = vec!["bas", "brs", "vb", "vba", "vbs"];
    assert(exts@ =~= seq!["bas", "brs", "vb", "vba", "vbs"]);
    push_def(defs, entry("vb", exts, None, None, None));
    let exts: Vec<&str> = vec!["vue"];
    assert(exts@ =~= seq!["vue"]);
    push_def(defs, entry("vue", exts, None, None, None));
    let exts: Vec<&str> = vec!["ascx", "atom", "axaml", "axml", "bpmn", "config", "cpt", "csl", "csproj", "csproj.user", "dita", "ditamap", "dtd", "dtml", "ent", "fsproj", "fxml", "iml", "isml", "jmx", "launch", "menu", "mod", "mxml", "nuspec", "opml", "owl", "proj", "props", "pt", "publishsettings", "pubxml", "pubxml.user", "rbxlx", "rbxmx", "rdf", "rng", "rss", "shproj", "storyboard", "svg", "targets", "tld", "tmx", "vbproj", "vbproj.user", "vcxproj", "vcxproj.filters", "wsdl", "wxi", "wxl", "wxs", "xaml", "xbl", "xib", "xlf", "xliff", "xml", "xoml", "xpdl", "xsd", "xul"];
    assert(exts@ =~= seq!["ascx", "atom", "axaml", "axml", "bpmn", "config", "cpt", "csl", "csproj", "csproj.user", "dita", "ditamap", "dtd", "dtml", "ent", "fsproj", "fxml", "iml", "isml", "jmx", "launch", "menu", "mod", "mxml", "nuspec", "opml", "owl", "proj", "props", "pt", "publishsettings", "pubxml", "pubxml.user", "rbxlx", "rbxmx", "rdf", "rng", "rss", "shproj", "storyboard", "svg", "targets", "tld", "tmx", "vbproj", "vbproj.user", "vcxproj", "vcxproj.filters", "wsdl", "wxi", "wxl", "wxs", "xaml", "xbl", "xib", "xlf", "xliff", "xml", "xoml", "xpdl", "xsd", "xul"]);
    push_def(defs, entry("xml", exts, None, None, None));
    let exts: Vec<&str> = vec!["xsl", "xslt"];
    assert(exts@ =~= seq!["xsl", "xslt"]);
    push_def(defs, entry("xsl", exts, None, None, None));
    let exts: Vec<&str> = vec!["cff", "eyaml", "eyml", "yaml", "yaml-tmlanguage", "yaml-tmpreferences", "yaml-tmtheme", "yml"];
    assert(exts@ =~= seq!["cff", "eyaml", "eyml", "yaml", "yaml-tmlanguage", "yaml-tmpreferences", "yaml-tmtheme", "yml"]);
    push_def(defs, entry("yaml", exts, None, None, None));
    let exts: Vec<&str> = vec!["bin", "cur", "dll", "eot", "exe", "gz", "lib", "o", "obj", "phar", "zip"];
    assert(exts@ =~= seq!["bin", "cur", "dll", "eot", "exe", "gz", "lib", "o", "obj", "phar", "zip"]);
    push_def(defs, entry("binary", exts, None, Some(FileTypeFormat::Binary), None));
    let exts: Vec<&str> = vec!["dll"];
    assert(exts@ =~= seq!["dll"]);
    push_def(defs, entry("dll", exts, None, Some(FileTypeFormat::Binary), None));
    let exts: Vec<&str> = vec!["exe"];
    assert(exts@ =~= seq!["exe"]);
    push_def(defs, entry("exe", exts, None, Some(FileTypeFormat::Binary), None));
    let exts: Vec<&str> = vec!["ttf", "woff", "woff2"];
    assert(exts@ =~= seq!["ttf", "woff", "woff2"]);
    push_def(defs, entry("fonts", exts, None, Some(FileTypeFormat::Binary), None));
    let exts: Vec<&str> = vec!["gz"];
    assert(exts@ =~= seq!["gz"]);
    push_def(defs, entry("gzip", exts, None, Some(FileTypeFormat::Binary), None));
    let exts: Vec<&str> = vec!["bmp", "exr", "gif", "heic", "ico", "jpeg", "jpg", "pbm", "pgm", "png", "ppm", "ras", "sgi", "tiff", "webp", "xbm"];
    assert(exts@ =~= seq!["bmp", "exr", "gif", "heic", "ico", "jpeg", "jpg", "pbm", "pgm", "png", "ppm", "ras", "sgi", "tiff", "webp", "xbm"]);
    push_def(defs, entry("image", exts, None, Some(FileTypeFormat::Binary), Some("Some image extensions")));
    let exts: Vec<&str> = vec!["jar"];
    assert(exts@ =~= seq!["jar"]);
    push_def(defs, entry("jar", exts, None, Some(FileTypeFormat::Binary), None));
    let exts: Vec<&str> = vec!["mdb"];
    assert(exts@ =~= seq!["mdb"]);
    push_def(defs, entry("mdb", exts, None, Some(FileTypeFormat::Binary), Some("Microsoft Access DB")));
    let exts: Vec<&str> = vec!["o", "obj"];
    assert(exts@ =~= seq!["o", "obj"]);
    push_def(defs, entry("object-file", exts, None, Some(FileTypeFormat::Binary), None));
    let exts: Vec<&str> = vec!["spv"];
    assert(exts@ =~= seq!["spv"]);
    push_def(defs, entry("spv", exts, None, Some(FileTypeFormat::Binary), Some("SPSS Output Document")));
    let exts: Vec<&str> = vec!["trie"];
    assert(exts@ =~= seq!["trie"]);
    push_def(defs, entry("trie", exts, None, Some(FileTypeFormat::Binary), Some("CSpell dictionary file.")));
    let exts: Vec<&str> = vec!["avi", "flv", "mkv", "mov", "mp4", "mpeg", "mpg", "wmv"];
    assert(exts@ =~= seq!["avi", "flv", "mkv", "mov", "mp4", "mpeg", "mpg", "wmv"]);
    push_def(defs, entry("video", exts, None, Some(FileTypeFormat::Binary), None));
    let exts: Vec<&str> = vec!["webm"];
    assert(exts@ =~= seq!["webm"]);
    push_def(defs, entry("webm", exts, None, Some(FileTypeFormat::Binary), Some("WebM is an audiovisual media file format.")));
    let exts: Vec<&str> = vec!["whl"];
    assert(exts@ =~= seq!["whl"]);
    push_def(defs, entry("wheel", exts, None, Some(FileTypeFormat::Binary), None));
    assert(def_views(defs@) =~= start + builtin_part_5());
}

/// The built-in file types; every extension in it starts with `.`.
pub fn definitions() -> (r: Vec<FileTypeDefinition>)
    ensures
        all_dotted(r@),
        def_views(r@) == builtin_table(),
{
    let mut defs: Vec<FileTypeDefinition> = Vec::new();
    assert(def_views(defs@) =~= Seq::<DefView>::empty());
    add_part_1(&mut defs);
    add_part_2(&mut defs);
    add_part_3(&mut defs);
    add_part_4(&mut defs);
    add_part_5(&mut defs);
    assert(def_views(defs@) =~= builtin_table());
    defs
}

} // verus!
