//! Scaffolding of a new function project: which directory to create and
//! which files to write into it, for each template kind.

use vstd::prelude::*;
use vstd::string::StringExecFns;

verus! {

/// The name of the project configuration file.
pub const CONFIG_FILE: &'static str = "config.toml";

/// The owner address written into a fresh configuration, to be replaced
/// by the user's own.
pub const DEFAULT_OWNER: &'static str = "0x5d547ccd49f6f35fc0dd66fb76e032e8fbf570ff";

/// The version written into a fresh configuration.
pub const INITIAL_VERSION: &'static str = "0.0.1";

/// The handler that a fresh deno project starts with.
pub const DENO_MAIN: &'static str =
    "import * as o from \"https://deno.land/x/cowsay/mod.ts\"\n\nexport async function handler(payload = {}) {\n    let m = o.say({\n        text: \"hello every one\",\n    })\n    console.log(m)\n    return m\n}\n";

/// The harness that runs a deno handler locally.
pub const DENO_TEST: &'static str =
    "// this file is for faas3 run\nimport { handler } from \"./main.ts\";\n\nconst res = await handler();\nconsole.log(res);\n";

/// The handler that a fresh node project starts with.
pub const NODE_MAIN: &'static str =
    "    // You can import inner sdk\n    export async function handler(payload) {\n        console.log(payload)\n    }\n    ";

/// The harness that runs a node handler locally.
pub const NODE_TEST: &'static str =
    "// this file is for faas3 run\nimport { handler } from \"./main.mjs\";\n\nconst res = await handler();\nconsole.log(res);\n";

/// The runtimes a function project can target.
#[derive(Clone, Copy, Debug, PartialEq, Eq, Structural)]
pub enum Template {
    Deno,
    Node,
}

/// The template kind that a template string names, if any.
pub open spec fn template_of(text: Seq<char>) -> Option<Template> {
    if text == "deno"@ {
        Some(Template::Deno)
    } else if text == "node"@ {
        Some(Template::Node)
    } else {
        None
    }
}

/// The string that names a template kind.
pub open spec fn template_name_of(kind: Template) -> Seq<char> {
    match kind {
        Template::Deno => "deno"@,
        Template::Node => "node"@,
    }
}

/// The file that holds the handler of a project of the given kind.
pub open spec fn main_file_of(kind: Template) -> Seq<char> {
    match kind {
        Template::Deno => "main.ts"@,
        Template::Node => "main.mjs"@,
    }
}

/// The file that holds the local test harness of a project of the given kind.
pub open spec fn test_file_of(kind: Template) -> Seq<char> {
    match kind {
        Template::Deno => "test.ts"@,
        Template::Node => "test.mjs"@,
    }
}

/// The handler source a fresh project of the given kind starts with.
pub open spec fn main_text_of(kind: Template) -> Seq<char> {
    match kind {
        Template::Deno => DENO_MAIN@,
        Template::Node => NODE_MAIN@,
    }
}

/// The harness source a fresh project of the given kind starts with.
pub open spec fn test_text_of(kind: Template) -> Seq<char> {
    match kind {
        Template::Deno => DENO_TEST@,
        Template::Node => NODE_TEST@,
    }
}

/// One `key = "value"` entry of the configuration.
pub open spec fn entry_of(key: Seq<char>, value: Seq<char>) -> Seq<char> {
    key + " = \""@ + value + "\""@
}

/// The configuration text of a fresh project.
pub open spec fn config_text_of(kind: Template, name: Seq<char>) -> Seq<char> {
    "[basic]\n"@ + entry_of("template"@, template_name_of(kind)) + "\n"@ + entry_of(
        "version"@,
        INITIAL_VERSION@,
    ) + "\n"@ + entry_of("name"@, name) + " # your function name, it's unique.\n"@ + entry_of(
        "description"@,
        ""@,
    ) + "\n"@ + entry_of("owner"@, DEFAULT_OWNER@) + " # Your sui address"@
}

/// The path of a file directly inside a directory.
pub open spec fn path_in(dir: Seq<char>, file: Seq<char>) -> Seq<char> {
    dir + "/"@ + file
}

/// A file to write: where, and what.
#[derive(Clone, Debug, PartialEq, Eq)]
pub struct ProjectFile {
    pub path: String,
    pub content: String,
}

/// The view of [`ProjectFile`], every string as its sequence of characters.
pub struct ProjectFileView {
    pub path: Seq<char>,
    pub content: Seq<char>,
}

impl View for ProjectFile {
    type V = ProjectFileView;

    open spec fn view(&self) -> ProjectFileView {
        ProjectFileView { path: self.path@, content: self.content@ }
    }
}

/// Everything `create` puts on disk: first the directory, then the files
/// in the order given. A step that fails ends the command; nothing that
/// was already written is taken back.
#[derive(Clone, Debug, PartialEq, Eq)]
pub struct Scaffold {
    /// The directory to create. It must not exist yet.
    pub dir: String,
    /// The files to write into it.
    pub files: Vec<ProjectFile>,
}

/// The view of [`Scaffold`], every string as its sequence of characters.
pub struct ScaffoldView {
    pub dir: Seq<char>,
    pub files: Seq<ProjectFileView>,
}

impl View for Scaffold {
    type V = ScaffoldView;

    open spec fn view(&self) -> ScaffoldView {
        ScaffoldView {
            dir: self.dir@,
            files: self.files@.map_values(|file: ProjectFile| file@),
        }
    }
}

/// The scaffold of a project called `name` of the given kind: a directory
/// `name` holding the configuration, the handler and the test harness.
pub open spec fn scaffold_of(kind: Template, name: Seq<char>) -> ScaffoldView {
    ScaffoldView {
        dir: name,
        files: seq![
            ProjectFileView {
                path: path_in(name, CONFIG_FILE@),
                content: config_text_of(kind, name),
            },
            ProjectFileView { path: path_in(name, main_file_of(kind)), content: main_text_of(kind) },
            ProjectFileView { path: path_in(name, test_file_of(kind)), content: test_text_of(kind) },
        ],
    }
}

/// What `create` does for a name and a template string: the scaffold of
/// that kind, or nothing at all where the string names no template.
pub open spec fn create_plan_of(name: Seq<char>, template: Seq<char>) -> Option<ScaffoldView> {
    match template_of(template) {
        Some(kind) => Some(scaffold_of(kind, name)),
        None => None,
    }
}

impl Template {
    /// Reads a template string. Only `"deno"` and `"node"` name a template.
    pub fn parse(text: &str) -> (kind: Option<Template>)
        ensures
            kind == template_of(text@),
    {
        let owned = text.to_owned();
        if owned == "deno".to_owned() {
            Some(Template::Deno)
        } else if owned == "node".to_owned() {
            Some(Template::Node)
        } else {
            None
        }
    }

    /// The string that names this kind.
    pub fn name(self) -> (text: &'static str)
        ensures
            text@ == template_name_of(self),
    {
        match self {
            Template::Deno => "deno",
            Template::Node => "node",
        }
    }

    /// The file that holds the handler.
    pub fn main_file(self) -> (file: &'static str)
        ensures
            file@ == main_file_of(self),
    {
        match self {
            Template::Deno => "main.ts",
            Template::Node => "main.mjs",
        }
    }

    /// The file that holds the local test harness.
    pub fn test_file(self) -> (file: &'static str)
        ensures
            file@ == test_file_of(self),
    {
        match self {
            Template::Deno => "test.ts",
            Template::Node => "test.mjs",
        }
    }

    /// The handler source a fresh project starts with.
    pub fn main_text(self) -> (text: &'static str)
        ensures
            text@ == main_text_of(self),
    {
        match self {
            Template::Deno => DENO_MAIN,
            Template::Node => NODE_MAIN,
        }
    }

    /// The harness source a fresh project starts with.
    pub fn test_text(self) -> (text: &'static str)
        ensures
            text@ == test_text_of(self),
    {
        match self {
            Template::Deno => DENO_TEST,
            Template::Node => NODE_TEST,
        }
    }
}

/// Appends one `key = "value"` entry to a configuration text.
fn push_entry(text: &mut String, key: &str, value: &str)
    ensures
        final(text)@ == old(text)@ + entry_of(key@, value@),
{
    text.append(key);
    text.append(" = \"");
    text.append(value);
    text.append("\"");
}

/// Writes the configuration text of a fresh project.
pub fn config_text(kind: Template, name: &str) -> (text: String)
    ensures
        text@ == config_text_of(kind, name@),
{
    let mut text = "[basic]\n".to_owned();
    push_entry(&mut text, "template", kind.name());
    text.append("\n");
    push_entry(&mut text, "version", INITIAL_VERSION);
    text.append("\n");
    push_entry(&mut text, "name", name);
    text.append(" # your function name, it's unique.\n");
    push_entry(&mut text, "description", "");
    text.append("\n");
    push_entry(&mut text, "owner", DEFAULT_OWNER);
    text.append(" # Your sui address");
    text
}

/// Joins a directory and a file name with a slash.
pub fn join_path(dir: &str, file: &str) -> (path: String)
    ensures
        path@ == path_in(dir@, file@),
{
    let mut path = dir.to_owned();
    path.append("/");
    path.append(file);
    path
}

/// Plans the scaffold of a project called `name` of the given kind.
pub fn scaffold(kind: Template, name: String) -> (plan: Scaffold)
    ensures
        plan@ == scaffold_of(kind, name@),
{
    let config = ProjectFile {
        path: join_path(name.as_str(), CONFIG_FILE),
        content: config_text(kind, name.as_str()),
    };
    let main = ProjectFile {
        path: join_path(name.as_str(), kind.main_file()),
        content: kind.main_text().to_owned(),
    };
    let test = ProjectFile {
        path: join_path(name.as_str(), kind.test_file()),
        content: kind.test_text().to_owned(),
    };
    let mut files: Vec<ProjectFile> = Vec::new();
    files.push(config);
    files.push(main);
    files.push(test);
    let plan = Scaffold { dir: name, files };
    assert(plan@.files =~= scaffold_of(kind, name@).files);
    plan
}

/// Plans a deno project called `name`: `main.ts` with a worked example
/// that imports a remote module, and `test.ts` to run it.
pub fn create_deno_action(name: String) -> (plan: Scaffold)
    ensures
        plan@ == scaffold_of(Template::Deno, name@),
{
    scaffold(Template::Deno, name)
}

/// Plans a node project called `name`: `main.mjs` with a stub handler,
/// and `test.mjs` to run it.
pub fn create_node_action(name: String) -> (plan: Scaffold)
    ensures
        plan@ == scaffold_of(Template::Node, name@),
{
    scaffold(Template::Node, name)
}

/// Plans the `create` command. For `"deno"` and `"node"` the result is the
/// scaffold of that kind; for any other template string there is nothing
/// to do, and that is not an error.
pub fn create_action(name: String, template: String) -> (plan: Option<Scaffold>)
    ensures
        optional_scaffold(plan) == create_plan_of(name@, template@),
{
    match Template::parse(template.as_str()) {
        Some(Template::Deno) => Some(create_deno_action(name)),
        Some(Template::Node) => Some(create_node_action(name)),
        None => None,
    }
}

/// The view of an optional scaffold.
pub open spec fn optional_scaffold(plan: Option<Scaffold>) -> Option<ScaffoldView> {
    match plan {
        Some(scaffold) => Some(scaffold@),
        None => None,
    }
}

/// Whether `needle` stands in `text` at position `at`.
pub open spec fn occurs_at(needle: Seq<char>, text: Seq<char>, at: int) -> bool {
    0 <= at && at + needle.len() <= text.len() && text.subrange(at, at + needle.len()) == needle
}

/// Whether `needle` stands somewhere in `text`, as one contiguous run.
pub open spec fn occurs_in(needle: Seq<char>, text: Seq<char>) -> bool {
    exists|at: int| occurs_at(needle, text, at)
}

/// A run that is framed by a prefix and a suffix occurs in the whole.
pub proof fn lemma_occurs_between(before: Seq<char>, needle: Seq<char>, after: Seq<char>)
    ensures
        occurs_in(needle, before + needle + after),
{
    let text = before + needle + after;
    let start: int = before.len() as int;
    assert(text.subrange(start, start + needle.len()) =~= needle);
    assert(occurs_at(needle, text, start));
}

/// Two files of one directory have the same path only if they have the
/// same name.
pub proof fn lemma_path_in_injective(dir: Seq<char>, first: Seq<char>, second: Seq<char>)
    requires
        path_in(dir, first) == path_in(dir, second),
    ensures
        first == second,
{
    let path = path_in(dir, first);
    let offset: int = dir.len() as int + 1;
    assert("/"@.len() == 1) by {
        reveal_strlit("/");
    }
    assert(first =~= path.subrange(offset, path.len() as int));
    assert(second =~= path.subrange(offset, path.len() as int));
}

/// The configuration, the handler and the harness of one kind have three
/// different file names.
pub proof fn lemma_file_names_distinct(kind: Template)
    ensures
        CONFIG_FILE@ != main_file_of(kind),
        CONFIG_FILE@ != test_file_of(kind),
        main_file_of(kind) != test_file_of(kind),
{
    reveal_strlit("config.toml");
    reveal_strlit("main.ts");
    reveal_strlit("main.mjs");
    reveal_strlit("test.ts");
    reveal_strlit("test.mjs");
    assert("main.ts"@[0] != "test.ts"@[0]);
    assert("main.mjs"@[0] != "test.mjs"@[0]);
}

/// The two template names are different strings, so each names its own kind.
pub proof fn lemma_template_names(kind: Template)
    ensures
        template_of(template_name_of(kind)) == Some(kind),
{
    reveal_strlit("deno");
    reveal_strlit("node");
    assert("deno"@[0] != "node"@[0]);
}

/// The configuration of a fresh project holds the entry `name = "<name>"`
/// with the project's name, and the entry `template = "<template>"` with
/// the name of its kind.
pub proof fn lemma_config_holds_name_and_template(kind: Template, name: Seq<char>)
    ensures
        occurs_in(entry_of("name"@, name), config_text_of(kind, name)),
        occurs_in(entry_of("template"@, template_name_of(kind)), config_text_of(kind, name)),
{
    let text = config_text_of(kind, name);
    let template_entry = entry_of("template"@, template_name_of(kind));
    let name_entry = entry_of("name"@, name);
    let head = "[basic]\n"@;
    let middle = "\n"@ + entry_of("version"@, INITIAL_VERSION@) + "\n"@;
    let tail = " # your function name, it's unique.\n"@ + entry_of("description"@, ""@) + "\n"@
        + entry_of("owner"@, DEFAULT_OWNER@) + " # Your sui address"@;
    assert(text =~= head + template_entry + (middle + name_entry + tail));
    lemma_occurs_between(head, template_entry, middle + name_entry + tail);
    assert(text =~= (head + template_entry + middle) + name_entry + tail);
    lemma_occurs_between(head + template_entry + middle, name_entry, tail);
}

/// For the template strings `"deno"` and `"node"`, `create` plans a
/// directory called `name` that holds exactly three files under three
/// different paths: `config.toml`, the handler and the test harness of
/// that kind. The configuration holds the given name and template.
pub proof fn lemma_create_plans_whole_project(name: Seq<char>, template: Seq<char>)
    requires
        template == "deno"@ || template == "node"@,
    ensures
        ({
            &&& template_of(template) matches Some(kind)
            &&& create_plan_of(name, template) matches Some(plan)
            &&& template_name_of(kind) == template
            &&& plan.dir == name
            &&& plan.files.len() == 3
            &&& plan.files[0].path == path_in(name, CONFIG_FILE@)
            &&& plan.files[1].path == path_in(name, main_file_of(kind))
            &&& plan.files[2].path == path_in(name, test_file_of(kind))
            &&& plan.files[0].path != plan.files[1].path
            &&& plan.files[0].path != plan.files[2].path
            &&& plan.files[1].path != plan.files[2].path
            &&& plan.files[1].content == main_text_of(kind)
            &&& plan.files[2].content == test_text_of(kind)
            &&& occurs_in(entry_of("name"@, name), plan.files[0].content)
            &&& occurs_in(entry_of("template"@, template), plan.files[0].content)
        }),
{
    lemma_template_names(Template::Deno);
    lemma_template_names(Template::Node);
    let kind = template_of(template).unwrap();
    lemma_file_names_distinct(kind);
    lemma_config_holds_name_and_template(kind, name);
    if path_in(name, CONFIG_FILE@) == path_in(name, main_file_of(kind)) {
        lemma_path_in_injective(name, CONFIG_FILE@, main_file_of(kind));
    }
    if path_in(name, CONFIG_FILE@) == path_in(name, test_file_of(kind)) {
        lemma_path_in_injective(name, CONFIG_FILE@, test_file_of(kind));
    }
    if path_in(name, main_file_of(kind)) == path_in(name, test_file_of(kind)) {
        lemma_path_in_injective(name, main_file_of(kind), test_file_of(kind));
    }
}

/// For any template string other than `"deno"` and `"node"`, `create`
/// plans nothing: no directory, no file.
pub proof fn lemma_create_ignores_other_templates(name: Seq<char>, template: Seq<char>)
    requires
        template != "deno"@,
        template != "node"@,
    ensures
        create_plan_of(name, template) is None,
{
}

} // verus!
