//! The bundle: the deployable output of one build, in one of two formats.
//!
//! A bundle is put together once, by one of its two constructors, and not
//! changed afterwards. What it promises (names that are unique, an entry that
//! is present) is checked there, on every value.

use vstd::prelude::*;
use vstd::string::*;
use crate::error::ConfigurationError;
use crate::error::ConfigurationErrorView;
use crate::settings::ScriptFormat;
use crate::text::first_true;
use crate::text::lemma_first_true_none;
use crate::text::lemma_first_true_some;
use crate::text::texts;

verus! {

/// One file of a module graph.
#[derive(Debug, PartialEq, Eq)]
pub struct Module {
    /// The file's own name, without the directories that lead to it.
    pub name: String,
    pub path: String,
    pub content: Vec<u8>,
}

pub struct ModuleView {
    pub name: Seq<char>,
    pub path: Seq<char>,
    pub content: Seq<u8>,
}

impl View for Module {
    type V = ModuleView;

    open spec fn view(&self) -> ModuleView {
        ModuleView { name: self.name@, path: self.path@, content: self.content@ }
    }
}

/// What a binding gives the script access to.
#[derive(Clone, Copy, Debug, PartialEq, Eq, Structural)]
pub enum BindingKind {
    KVNamespace,
    TextBlob,
    PlainText,
    AssetManifest,
}

/// A named resource attached to a bundle.
#[derive(Debug, PartialEq, Eq)]
pub struct Binding {
    pub name: String,
    pub kind: BindingKind,
    pub value: String,
}

pub struct BindingView {
    pub name: Seq<char>,
    pub kind: BindingKind,
    pub value: Seq<char>,
}

impl View for Binding {
    type V = BindingView;

    open spec fn view(&self) -> BindingView {
        BindingView { name: self.name@, kind: self.kind, value: self.value@ }
    }
}

pub open spec fn module_views(modules: Seq<Module>) -> Seq<ModuleView> {
    modules.map_values(|m: Module| m@)
}

pub open spec fn binding_views(bindings: Seq<Binding>) -> Seq<BindingView> {
    bindings.map_values(|b: Binding| b@)
}

pub open spec fn module_names(modules: Seq<ModuleView>) -> Seq<Seq<char>> {
    modules.map_values(|m: ModuleView| m.name)
}

pub open spec fn binding_names(bindings: Seq<BindingView>) -> Seq<Seq<char>> {
    bindings.map_values(|b: BindingView| b.name)
}

/// No name occurs twice.
pub open spec fn distinct(names: Seq<Seq<char>>) -> bool {
    forall|i: int, j: int| 0 <= i < j < names.len() ==> names[i] != names[j]
}

/// The name at `j` has occurred before `j`.
pub open spec fn repeats(names: Seq<Seq<char>>, j: int) -> bool {
    exists|i: int| 0 <= i < j && names[i] == names[j]
}

/// For each position, whether its name has occurred before it.
pub open spec fn repeat_flags(names: Seq<Seq<char>>) -> Seq<bool> {
    Seq::new(names.len(), |j: int| repeats(names, j))
}

/// The first name that is seen a second time, reading from the front; `None`
/// where no name occurs twice.
pub open spec fn first_repeated_name(names: Seq<Seq<char>>) -> Option<Seq<char>> {
    match first_true(repeat_flags(names)) {
        Some(j) => Some(names[j]),
        None => None,
    }
}

/// Names are distinct exactly where no position repeats an earlier one.
pub proof fn lemma_distinct_means_no_repeat(names: Seq<Seq<char>>)
    ensures
        distinct(names) <==> first_true(repeat_flags(names)) is None,
        distinct(names) <==> first_repeated_name(names) is None,
{
    let flags = repeat_flags(names);
    if distinct(names) {
        lemma_first_true_none(flags);
    } else {
        let (i, j) = choose|i: int, j: int| 0 <= i < j < names.len() && names[i] == names[j];
        assert(flags[j]);
    }
}

/// Finds the first position of `names` whose name has occurred before it.
pub fn find_first_repeat(names: &Vec<String>) -> (found: Option<usize>)
    ensures
        found is None <==> distinct(texts(names@)),
        match found {
            Some(j) => j < names.len() && first_true(repeat_flags(texts(names@))) == Some(j as int),
            None => first_true(repeat_flags(texts(names@))) is None,
        },
{
    let ghost t = texts(names@);
    let ghost flags = repeat_flags(t);
    let mut j: usize = 0;
    while j < names.len()
        invariant
            j <= names.len(),
            t == texts(names@),
            flags == repeat_flags(t),
            forall|k: int| 0 <= k < j ==> !flags[k],
        decreases names.len() - j,
    {
        let mut i: usize = 0;
        while i < j
            invariant
                i <= j < names.len(),
                t == texts(names@),
                flags == repeat_flags(t),
                forall|k: int| 0 <= k < j ==> !flags[k],
                forall|m: int| 0 <= m < i ==> t[m] != t[j as int],
            decreases j - i,
        {
            proof {
                assert(t[i as int] == names[i as int]@);
            }
            if names[i] == names[j] {
                proof {
                    lemma_first_true_some(flags, j as int);
                    lemma_distinct_means_no_repeat(t);
                }
                return Some(j);
            }
            i += 1;
        }
        j += 1;
    }
    proof {
        lemma_first_true_none(flags);
        lemma_distinct_means_no_repeat(t);
    }
    None
}

/// Where a name occurs twice, there is a first name that is seen twice.
pub proof fn lemma_shared_name_is_found(names: Seq<Seq<char>>, i: int, j: int)
    requires
        0 <= i < j < names.len(),
        names[i] == names[j],
    ensures
        !distinct(names),
        first_repeated_name(names) is Some,
{
    lemma_distinct_means_no_repeat(names);
}

/// The deployable output of one build.
#[derive(Debug, PartialEq, Eq)]
pub struct Bundle {
    format: ScriptFormat,
    entry: String,
    modules: Vec<Module>,
    bindings: Vec<Binding>,
}

pub struct BundleView {
    pub format: ScriptFormat,
    /// The script's path in the single-script format, the entry module's name
    /// in the module format.
    pub entry: Seq<char>,
    pub modules: Seq<ModuleView>,
    pub bindings: Seq<BindingView>,
}

impl BundleView {
    /// What every bundle promises.
    pub open spec fn wf(self) -> bool {
        &&& distinct(binding_names(self.bindings))
        &&& distinct(module_names(self.modules))
        &&& match self.format {
            ScriptFormat::ServiceWorker => self.modules.len() == 0,
            ScriptFormat::Modules => exists|i: int|
                0 <= i < self.modules.len() && (#[trigger] self.modules[i]).name == self.entry,
        }
    }
}

impl View for Bundle {
    type V = BundleView;

    closed spec fn view(&self) -> BundleView {
        BundleView {
            format: self.format,
            entry: self.entry@,
            modules: module_views(self.modules@),
            bindings: binding_views(self.bindings@),
        }
    }
}

/// The names of `bindings`, in order.
fn names_of_bindings(bindings: &Vec<Binding>) -> (names: Vec<String>)
    ensures
        texts(names@) == binding_names(binding_views(bindings@)),
{
    let mut names: Vec<String> = Vec::new();
    let mut i: usize = 0;
    while i < bindings.len()
        invariant
            i <= bindings.len(),
            names.len() == i,
            forall|k: int| 0 <= k < i ==> (#[trigger] names[k])@ == bindings[k].name@,
        decreases bindings.len() - i,
    {
        names.push(bindings[i].name.clone());
        i += 1;
    }
    names
}

/// The names of `modules`, in order.
fn names_of_modules(modules: &Vec<Module>) -> (names: Vec<String>)
    ensures
        texts(names@) == module_names(module_views(modules@)),
{
    let mut names: Vec<String> = Vec::new();
    let mut i: usize = 0;
    while i < modules.len()
        invariant
            i <= modules.len(),
            names.len() == i,
            forall|k: int| 0 <= k < i ==> (#[trigger] names[k])@ == modules[k].name@,
        decreases modules.len() - i,
    {
        names.push(modules[i].name.clone());
        i += 1;
    }
    names
}

/// Whether a module of `modules` is called `name`.
pub open spec fn has_module(modules: Seq<ModuleView>, name: Seq<char>) -> bool {
    exists|i: int| 0 <= i < modules.len() && (#[trigger] modules[i]).name == name
}

fn contains_module(modules: &Vec<Module>, name: &String) -> (found: bool)
    ensures
        found == has_module(module_views(modules@), name@),
{
    let mut i: usize = 0;
    while i < modules.len()
        invariant
            i <= modules.len(),
            forall|k: int| 0 <= k < i ==> (#[trigger] module_views(modules@)[k]).name != name@,
        decreases modules.len() - i,
    {
        if modules[i].name == *name {
            assert(module_views(modules@)[i as int].name == name@);
            return true;
        }
        i += 1;
    }
    false
}

/// The result that the single-script constructor owes for these parts.
pub open spec fn service_worker_bundle(
    script: Seq<char>,
    bindings: Seq<BindingView>,
) -> Result<BundleView, ConfigurationErrorView> {
    match first_repeated_name(binding_names(bindings)) {
        Some(name) => Err(ConfigurationErrorView::DuplicateBindingName { name }),
        None => Ok(
            BundleView {
                format: ScriptFormat::ServiceWorker,
                entry: script,
                modules: Seq::empty(),
                bindings,
            },
        ),
    }
}

/// The result that the module-graph constructor owes for these parts.
pub open spec fn modules_bundle(
    entry: Seq<char>,
    modules: Seq<ModuleView>,
    bindings: Seq<BindingView>,
) -> Result<BundleView, ConfigurationErrorView> {
    if let Some(name) = first_repeated_name(binding_names(bindings)) {
        Err(ConfigurationErrorView::DuplicateBindingName { name })
    } else if let Some(name) = first_repeated_name(module_names(modules)) {
        Err(ConfigurationErrorView::DuplicateModuleName { name })
    } else if !has_module(modules, entry) {
        Err(ConfigurationErrorView::EntryNotBundled { entry })
    } else {
        Ok(BundleView { format: ScriptFormat::Modules, entry, modules, bindings })
    }
}

/// The view of a constructor's result.
pub open spec fn bundle_result_view(
    res: Result<Bundle, ConfigurationError>,
) -> Result<BundleView, ConfigurationErrorView> {
    match res {
        Ok(b) => Ok(b@),
        Err(e) => Err(e@),
    }
}

/// Two bindings of one name are never bundled: where two bindings share a
/// name, both constructors fail, with the first name that is seen twice.
pub proof fn lemma_shared_binding_name_is_refused(
    entry: Seq<char>,
    modules: Seq<ModuleView>,
    bindings: Seq<BindingView>,
    i: int,
    j: int,
)
    requires
        0 <= i < j < bindings.len(),
        bindings[i].name == bindings[j].name,
    ensures
        first_repeated_name(binding_names(bindings)) is Some,
        service_worker_bundle(entry, bindings) == Err::<BundleView, ConfigurationErrorView>(
            ConfigurationErrorView::DuplicateBindingName {
                name: first_repeated_name(binding_names(bindings)).unwrap(),
            },
        ),
        modules_bundle(entry, modules, bindings) == Err::<BundleView, ConfigurationErrorView>(
            ConfigurationErrorView::DuplicateBindingName {
                name: first_repeated_name(binding_names(bindings)).unwrap(),
            },
        ),
{
    let names = binding_names(bindings);
    assert(names[i] == names[j]);
    lemma_shared_name_is_found(names, i, j);
}

impl Bundle {
    /// Whether this value keeps what a bundle promises. It holds of every
    /// bundle that a constructor returned.
    #[verifier::type_invariant]
    pub closed spec fn wf(&self) -> bool {
        self@.wf()
    }

    /// A bundle in the single-script format: `script` is its entry, and it
    /// has no modules. Fails where two bindings share a name, and names the
    /// first name that is seen twice.
    pub fn service_worker(script: String, bindings: Vec<Binding>) -> (res: Result<
        Bundle,
        ConfigurationError,
    >)
        ensures
            bundle_result_view(res) == service_worker_bundle(script@, binding_views(bindings@)),
            res matches Ok(b) ==> b@.wf(),
    {
        let names = names_of_bindings(&bindings);
        match find_first_repeat(&names) {
            Some(j) => Err(ConfigurationError::DuplicateBindingName { name: names[j].clone() }),
            None => {
                let modules: Vec<Module> = Vec::new();
                assert(module_views(modules@) =~= Seq::<ModuleView>::empty());
                Ok(Bundle { format: ScriptFormat::ServiceWorker, entry: script, modules, bindings })
            },
        }
    }

    /// A bundle in the module format. Fails where two bindings share a name,
    /// where two modules share a name, and where no module is called
    /// `entry`, in this order.
    pub fn modules(entry: String, modules: Vec<Module>, bindings: Vec<Binding>) -> (res: Result<
        Bundle,
        ConfigurationError,
    >)
        ensures
            bundle_result_view(res) == modules_bundle(
                entry@,
                module_views(modules@),
                binding_views(bindings@),
            ),
            res matches Ok(b) ==> b@.wf(),
    {
        let names = names_of_bindings(&bindings);
        if let Some(j) = find_first_repeat(&names) {
            return Err(ConfigurationError::DuplicateBindingName { name: names[j].clone() });
        }
        let names = names_of_modules(&modules);
        if let Some(j) = find_first_repeat(&names) {
            return Err(ConfigurationError::DuplicateModuleName { name: names[j].clone() });
        }
        if !contains_module(&modules, &entry) {
            return Err(ConfigurationError::EntryNotBundled { entry });
        }
        Ok(Bundle { format: ScriptFormat::Modules, entry, modules, bindings })
    }

    /// The format. Beside it, as with the other readers, stands what every
    /// bundle promises.
    pub fn format(&self) -> (f: ScriptFormat)
        ensures
            f == self@.format,
            self@.wf(),
    {
        proof {
            use_type_invariant(self);
        }
        self.format
    }

    /// The entry: the script's path, or the entry module's name.
    pub fn entry(&self) -> (e: &String)
        ensures
            e@ == self@.entry,
            self@.wf(),
    {
        proof {
            use_type_invariant(self);
        }
        &self.entry
    }

    /// The modules, in the order in which they were found. Empty for a
    /// single script.
    pub fn modules_list(&self) -> (m: &Vec<Module>)
        ensures
            module_views(m@) == self@.modules,
            self@.wf(),
    {
        proof {
            use_type_invariant(self);
        }
        &self.modules
    }

    /// The bindings, in the order in which they were attached.
    pub fn bindings(&self) -> (b: &Vec<Binding>)
        ensures
            binding_views(b@) == self@.bindings,
            self@.wf(),
    {
        proof {
            use_type_invariant(self);
        }
        &self.bindings
    }
}

} // verus!
