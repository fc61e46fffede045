//! Laying out a new package: its manifest and a first source file.

use crate::error::{Error, ErrorKind, ErrorView, KindView};
use crate::name::{dotted, pascal_case, qualified, to_pascal_case, Name};
use crate::paths::{join_path, joined};
use crate::plan::{step_views, FsStep, StepView};
use vstd::prelude::*;
use vstd::string::*;

verus! {

/// What is known of a package that is about to be created.
#[derive(Debug)]
pub struct NewCtx {
    /// The directory of the package.
    pub path: String,
    /// The package's name.
    pub name: Name,
    /// The author's name and e-mail address.
    pub author: Option<(String, String)>,
    /// Whether the package builds a binary rather than a library.
    pub bin: bool,
}

/// The work that creates a package, and what to tell the user once it is
/// done.
#[derive(Debug)]
pub struct Scaffold {
    /// What the caller has to carry out, in order.
    pub steps: Vec<FsStep>,
    /// The message for the user.
    pub message: String,
}

/// The value of an optional author.
pub open spec fn author_view(author: Option<(String, String)>) -> Option<(Seq<char>, Seq<char>)> {
    match author {
        Some((name, email)) => Some((name@, email@)),
        None => None,
    }
}

/// The entry of the authors list: `name <email>`, or nothing.
pub open spec fn author_text(author: Option<(Seq<char>, Seq<char>)>) -> Seq<char> {
    match author {
        Some((name, email)) => name + " <"@ + email + ">"@,
        None => Seq::<char>::empty(),
    }
}

/// The target section of the manifest: one binary named after the package,
/// or a library with one module.
pub open spec fn target_text(bin: bool, name: Seq<char>, module: Seq<char>) -> Seq<char> {
    if bin {
        "[[targets.bin]]\nname = \""@ + name + "\"\nmain = \"src/Main.idr\"\n\n"@
    } else {
        "[targets.lib]\npath = \"src/\"\nmods = [\n    \""@ + module + "\"\n]\n\n"@
    }
}

/// The text of the manifest of a new package.
pub open spec fn manifest_text(raw_name: Seq<char>, author: Seq<char>, target: Seq<char>) -> Seq<
    char,
> {
    "[package]\nname = \""@ + raw_name + "\"\nversion = \"0.1.0\"\nauthors = ["@ + author
        + "]\n\n[dependencies]\n\n"@ + target
}

/// The text of the first module of a library.
pub open spec fn module_text(module: Seq<char>) -> Seq<char> {
    "module "@ + module + "\n\nhello : IO ()\nhello = do\n  print \"Hello, world!\"\n"@
}

/// The text of the main module of a binary.
pub open spec fn main_text() -> Seq<char> {
    "module Main\n\nmain : IO ()\nmain = do\n  print \"Hello, world!\"\n"@
}

/// The message for the user.
pub open spec fn created_text(bin: bool, path: Seq<char>) -> Seq<char> {
    if bin {
        "new package with binary target created at "@ + path
    } else {
        "new package with library target created at "@ + path
    }
}

/// The steps that fill the directory `path` of a new package, given the
/// capitalised forms of the two segments of its name.
pub open spec fn init_steps(
    path: Seq<char>,
    name: Seq<char>,
    group: Seq<char>,
    author: Option<(Seq<char>, Seq<char>)>,
    bin: bool,
    group_cap: Seq<char>,
    name_cap: Seq<char>,
) -> Seq<StepView> {
    let module = dotted(group_cap, name_cap);
    let manifest = StepView::WriteFile {
        path: joined(path, "elba.toml"@),
        contents: manifest_text(
            qualified(group, name),
            author_text(author),
            target_text(bin, name, module),
        ),
    };
    if bin {
        seq![
            manifest,
            StepView::CreateDirAll { path: joined(path, "src"@) },
            StepView::WriteFile { path: joined(path, "src/Main.idr"@), contents: main_text() },
        ]
    } else {
        seq![
            manifest,
            StepView::CreateDirAll { path: joined(path, "src/"@ + group_cap) },
            StepView::WriteFile {
                path: joined(path, "src/"@ + group_cap + "/"@ + name_cap + ".idr"@),
                contents: module_text(module),
            },
        ]
    }
}

fn author_entry(author: &Option<(String, String)>) -> (text: String)
    ensures
        text@ == author_text(author_view(*author)),
{
    match author {
        Some((name, email)) => {
            let mut text = name.clone();
            text.append(" <");
            text.append(email.as_str());
            text.append(">");
            text
        },
        None => String::new(),
    }
}

fn target_section(bin: bool, name: &str, module: &str) -> (text: String)
    ensures
        text@ == target_text(bin, name@, module@),
{
    if bin {
        let mut text = String::from_str("[[targets.bin]]\nname = \"");
        text.append(name);
        text.append("\"\nmain = \"src/Main.idr\"\n\n");
        text
    } else {
        let mut text = String::from_str("[targets.lib]\npath = \"src/\"\nmods = [\n    \"");
        text.append(module);
        text.append("\"\n]\n\n");
        text
    }
}

fn manifest_file(raw_name: &str, author: &str, target: &str) -> (text: String)
    ensures
        text@ == manifest_text(raw_name@, author@, target@),
{
    let mut text = String::from_str("[package]\nname = \"");
    text.append(raw_name);
    text.append("\"\nversion = \"0.1.0\"\nauthors = [");
    text.append(author);
    text.append("]\n\n[dependencies]\n\n");
    text.append(target);
    text
}

/// Plans the contents of a new package in the directory `ctx.path`, given
/// the capitalised forms of the two segments of its name: the manifest,
/// the source directory, and a first module that says hello.
pub fn scaffold_with(ctx: &NewCtx, group_cap: &str, name_cap: &str) -> (plan: Scaffold)
    ensures
        step_views(plan.steps@) == init_steps(
            ctx.path@,
            ctx.name@.name,
            ctx.name@.group,
            author_view(ctx.author),
            ctx.bin,
            group_cap@,
            name_cap@,
        ),
        plan.message@ == created_text(ctx.bin, ctx.path@),
{
    let path = ctx.path.as_str();
    let mut module = String::from_str(group_cap);
    module.append(".");
    module.append(name_cap);
    proof {
        reveal_strlit(".");
        assert(module@ =~= dotted(group_cap@, name_cap@));
    }
    let raw = ctx.name.as_text();
    let author = author_entry(&ctx.author);
    let target = target_section(ctx.bin, ctx.name.name(), module.as_str());
    let mut steps: Vec<FsStep> = Vec::new();
    steps.push(
        FsStep::WriteFile {
            path: join_path(path, "elba.toml"),
            contents: manifest_file(raw.as_str(), author.as_str(), target.as_str()),
        },
    );
    let message = if ctx.bin {
        steps.push(FsStep::CreateDirAll { path: join_path(path, "src") });
        steps.push(
            FsStep::WriteFile {
                path: join_path(path, "src/Main.idr"),
                contents: String::from_str(
                    "module Main\n\nmain : IO ()\nmain = do\n  print \"Hello, world!\"\n",
                ),
            },
        );
        let mut message = String::from_str("new package with binary target created at ");
        message.append(path);
        message
    } else {
        let mut dir = String::from_str("src/");
        dir.append(group_cap);
        let mut file = dir.clone();
        file.append("/");
        file.append(name_cap);
        file.append(".idr");
        let mut text = String::from_str("module ");
        text.append(module.as_str());
        text.append("\n\nhello : IO ()\nhello = do\n  print \"Hello, world!\"\n");
        steps.push(FsStep::CreateDirAll { path: join_path(path, dir.as_str()) });
        steps.push(FsStep::WriteFile { path: join_path(path, file.as_str()), contents: text });
        let mut message = String::from_str("new package with library target created at ");
        message.append(path);
        message
    };
    proof {
        assert(step_views(steps@) =~= init_steps(
            ctx.path@,
            ctx.name@.name,
            ctx.name@.group,
            author_view(ctx.author),
            ctx.bin,
            group_cap@,
            name_cap@,
        ));
    }
    Scaffold { steps, message }
}

/// Plans the contents of a new package in the directory `ctx.path`, which
/// exists.
pub fn init(ctx: &NewCtx) -> (plan: Scaffold)
    ensures
        step_views(plan.steps@) == init_steps(
            ctx.path@,
            ctx.name@.name,
            ctx.name@.group,
            author_view(ctx.author),
            ctx.bin,
            pascal_case(ctx.name@.group),
            pascal_case(ctx.name@.name),
        ),
        plan.message@ == created_text(ctx.bin, ctx.path@),
{
    let group_cap = to_pascal_case(ctx.name.group());
    let name_cap = to_pascal_case(ctx.name.name());
    scaffold_with(ctx, group_cap.as_str(), name_cap.as_str())
}

/// Plans a new package in a directory of its own, which must not exist
/// yet: `exists` reports whether anything is at `ctx.path`. The directory
/// is created first, then filled as by [`init`].
pub fn new(ctx: &NewCtx, exists: bool) -> (r: Result<Scaffold, Error>)
    ensures
        r is Err <==> exists,
        r matches Err(e) ==> e@ == (ErrorView {
            kind: KindView::DestinationExists,
            path: ctx.path@,
            resolution: None,
        }),
        r matches Ok(plan) ==> {
            &&& step_views(plan.steps@) == seq![StepView::CreateDirAll { path: ctx.path@ }]
                + init_steps(
                ctx.path@,
                ctx.name@.name,
                ctx.name@.group,
                author_view(ctx.author),
                ctx.bin,
                pascal_case(ctx.name@.group),
                pascal_case(ctx.name@.name),
            )
            &&& plan.message@ == created_text(ctx.bin, ctx.path@)
        },
{
    if exists {
        return Err(Error::at(ErrorKind::DestinationExists, ctx.path.as_str()));
    }
    let filled = init(ctx);
    let mut steps: Vec<FsStep> = Vec::new();
    steps.push(FsStep::CreateDirAll { path: ctx.path.clone() });
    let mut rest = filled.steps;
    let ghost tail = rest@;
    steps.append(&mut rest);
    proof {
        assert(steps@ =~= seq![steps@[0]] + tail);
        assert(step_views(steps@) =~= seq![StepView::CreateDirAll { path: ctx.path@ }]
            + step_views(tail));
    }
    Ok(Scaffold { steps, message: filled.message })
}

} // verus!
