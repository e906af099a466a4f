//! Planning a new project: which name it gets, what is cloned, and where its
//! configuration goes.
//!
//! Nothing here touches the disk. The caller lists the current directory,
//! asks for the plan, and carries it out.

use vstd::prelude::*;
use vstd::string::*;
use crate::text::contains_name;
use crate::text::decimal;
use crate::text::first_true;
use crate::text::lemma_first_true_is_first;
use crate::text::lemma_first_true_none;
use crate::text::lemma_first_true_some;
use crate::text::listed;
use crate::text::push_decimal;

verus! {

/// The characters that a project name may hold: lower-case letters, digits,
/// the underscore, and, after the first character, the dash.
pub open spec fn is_name_char(c: char, first: bool) -> bool {
    ||| 'a' <= c <= 'z'
    ||| '0' <= c <= '9'
    ||| c == '_'
    ||| (!first && c == '-')
}

/// Whether `name` can name a project: it is not empty, and each of its
/// characters is one that a name may hold at its place.
pub open spec fn is_worker_name(name: Seq<char>) -> bool {
    &&& name.len() > 0
    &&& forall|i: int| 0 <= i < name.len() ==> is_name_char(#[trigger] name[i], i == 0)
}

/// Why no project was planned.
#[derive(Debug, PartialEq, Eq)]
pub enum GenerateError {
    /// The name holds a character that a project name may not hold, or is
    /// empty.
    InvalidName { name: String },
}

impl GenerateError {
    /// The text that reports this error to the user.
    pub fn message(&self) -> (text: String)
        ensures
            match self {
                GenerateError::InvalidName { name } => text@ == "Worker name `"@ + name@
                    + "` is invalid. Ensure that you only use lowercase letters, dashes, underscores, and numbers."@,
            },
    {
        match self {
            GenerateError::InvalidName { name } => {
                let mut text = String::from_str("Worker name `");
                text.append(name.as_str());
                text.append(
                    "` is invalid. Ensure that you only use lowercase letters, dashes, underscores, and numbers.",
                );
                text
            },
        }
    }
}

/// Checks that `name` can name a project.
pub fn validate_worker_name(name: &str) -> (res: Result<(), GenerateError>)
    ensures
        res is Ok <==> is_worker_name(name@),
        res matches Err(GenerateError::InvalidName { name: n }) ==> n@ == name@,
{
    let mut first = true;
    for c in it: name.chars()
        invariant
            it.seq() == name@,
            first == (it.index() == 0),
            forall|k: int| 0 <= k < it.index() ==> is_name_char(#[trigger] name@[k], k == 0),
    {
        let fits = ('a' <= c && c <= 'z') || ('0' <= c && c <= '9') || c == '_' || (!first && c
            == '-');
        if !fits {
            return Err(GenerateError::InvalidName { name: String::from_str(name) });
        }
        first = false;
    }
    if first {
        return Err(GenerateError::InvalidName { name: String::from_str(name) });
    }
    Ok(())
}

/// `name` with the number `num` behind a dash.
pub open spec fn numbered(name: Seq<char>, num: int) -> Seq<char> {
    name + seq!['-'] + decimal(num)
}

/// The name of the `num`-th copy of a project: the name, a dash, and the
/// number in decimal.
pub fn construct_name(name: &str, num: i32) -> (numbered_name: String)
    ensures
        numbered_name@ == numbered(name@, num as int),
{
    let mut out = String::from_str(name);
    out.push('-');
    push_decimal(&mut out, num);
    out
}

/// The largest number that a copy can get.
pub open spec fn last_number() -> int {
    0x7fff_ffff
}

/// For each number from 1 on, at the place before it, whether the name with
/// that number is free: no entry has it.
pub open spec fn free_numbers(name: Seq<char>, entries: Seq<String>) -> Seq<bool> {
    Seq::new(last_number() as nat, |i: int| !listed(entries, numbered(name, i + 1)))
}

/// The first free numbered name, if a number gives one.
pub open spec fn first_free_name(name: Seq<char>, entries: Seq<String>) -> Option<Seq<char>> {
    match first_true(free_numbers(name, entries)) {
        Some(i) => Some(numbered(name, i + 1)),
        None => None,
    }
}

/// Whether a directory called `dirname` is among `entries`.
pub fn directory_exists(entries: &Vec<String>, dirname: &str) -> (exists: bool)
    ensures
        exists == listed(entries@, dirname@),
{
    let wanted = String::from_str(dirname);
    contains_name(entries, &wanted)
}

/// Finds a name for a project whose own name is taken: the name with the
/// smallest number from 1 on that no entry has. `None` where every number
/// is taken.
pub fn generate_name(name: &str, entries: &Vec<String>) -> (new_name: Option<String>)
    ensures
        match first_free_name(name@, entries@) {
            Some(free) => new_name matches Some(n) && n@ == free,
            None => new_name is None,
        },
{
    let ghost free = free_numbers(name@, entries@);
    let mut num: i32 = 1;
    let mut candidate = construct_name(name, num);
    while contains_name(entries, &candidate)
        invariant
            1 <= num <= last_number(),
            free == free_numbers(name@, entries@),
            candidate@ == numbered(name@, num as int),
            forall|k: int| 0 <= k < num - 1 ==> !free[k],
        decreases last_number() - num,
    {
        if num == i32::MAX {
            proof {
                lemma_first_true_none(free);
            }
            return None;
        }
        num += 1;
        candidate = construct_name(name, num);
    }
    proof {
        lemma_first_true_some(free, num - 1);
    }
    Some(candidate)
}

/// What the caller found when it listed the current directory: the names
/// of the directories in it, or that it could not be listed.
pub enum Listing {
    Entries(Vec<String>),
    Unreadable,
}

/// What is to be done for a new project.
#[derive(Debug, PartialEq, Eq)]
pub struct GeneratePlan {
    /// The name of the project, and of the directory that is cloned into.
    pub name: String,
    /// The arguments of the `git` call that fetches the template.
    pub clone_args: Vec<String>,
    /// The directory that gets the project's configuration.
    pub config_dir: String,
    /// The directory of static assets, for a site.
    pub site_bucket: Option<String>,
}

/// The arguments with which `git` fetches `template` into `name`: a shallow
/// clone.
pub open spec fn clone_arguments(name: Seq<char>, template: Seq<char>) -> Seq<Seq<char>> {
    seq!["clone"@, "--depth"@, "1"@, template, name]
}

/// The arguments with which `git` fetches `template` into `name`.
pub fn clone_args(name: &str, template: &str) -> (args: Vec<String>)
    ensures
        crate::text::texts(args@) == clone_arguments(name@, template@),
{
    let mut args: Vec<String> = Vec::new();
    args.push(String::from_str("clone"));
    args.push(String::from_str("--depth"));
    args.push(String::from_str("1"));
    args.push(String::from_str(template));
    args.push(String::from_str(name));
    args
}

/// The name that a new project gets. It keeps its own name where no
/// directory has it; where one has it, the project gets the first free
/// numbered name. It also keeps its own name where the directory could not
/// be listed, or every number is taken.
pub open spec fn chosen_name(name: Seq<char>, listing: Listing) -> Seq<char> {
    match listing {
        Listing::Unreadable => name,
        Listing::Entries(entries) => if listed(entries@, name) {
            match first_free_name(name, entries@) {
                Some(free) => free,
                None => name,
            }
        } else {
            name
        },
    }
}

/// The name that is chosen is free: where the directory was listed, no
/// entry has the name that the project gets, unless every numbered name is
/// taken as well.
pub proof fn lemma_chosen_name_is_free(name: Seq<char>, entries: Vec<String>)
    requires
        !listed(entries@, name) || first_free_name(name, entries@) is Some,
    ensures
        !listed(entries@, chosen_name(name, Listing::Entries(entries))),
{
    if listed(entries@, name) {
        let free = free_numbers(name, entries@);
        lemma_first_true_is_first(free);
        let i = first_true(free).unwrap();
    }
}

/// Plans a new project called `name` from `template`.
///
/// Fails where `name` is no project name. Else the plan holds the name that
/// the project gets, the shallow clone of the template into a directory of
/// that name, the configuration directory `./` and `name`, and the asset
/// directory `./public` where a site is asked for.
pub fn generate(name: &str, template: &str, site: bool, listing: &Listing) -> (res: Result<
    GeneratePlan,
    GenerateError,
>)
    ensures
        res is Ok <==> is_worker_name(name@),
        res matches Err(GenerateError::InvalidName { name: n }) ==> n@ == name@,
        res matches Ok(plan) ==> {
            &&& plan.name@ == chosen_name(name@, *listing)
            &&& crate::text::texts(plan.clone_args@) == clone_arguments(
                plan.name@,
                template@,
            )
            &&& plan.config_dir@ == "./"@ + name@
            &&& site ==> (plan.site_bucket matches Some(bucket) && bucket@ == "./public"@)
            &&& !site ==> plan.site_bucket is None
        },
{
    match validate_worker_name(name) {
        Err(e) => {
            return Err(e);
        },
        Ok(()) => {},
    }
    let new_name = match listing {
        Listing::Unreadable => String::from_str(name),
        Listing::Entries(entries) => {
            if directory_exists(entries, name) {
                match generate_name(name, entries) {
                    Some(free) => free,
                    None => String::from_str(name),
                }
            } else {
                String::from_str(name)
            }
        },
    };
    let clone_args = clone_args(new_name.as_str(), template);
    let mut config_dir = String::from_str("./");
    config_dir.append(name);
    let site_bucket = if site {
        Some(String::from_str("./public"))
    } else {
        None
    };
    Ok(GeneratePlan { name: new_name, clone_args, config_dir, site_bucket })
}

} // verus!
