//! Putting a bundle together from a project's configuration and from what
//! was read from its files.
//!
//! Reading is the caller's part: it resolves the entry, reads the text blobs,
//! walks the upload directory and reads the files that the filter admits.
//! What it found goes in as [`ProjectSources`]; what comes out is a bundle,
//! or the first failure in the order in which the steps run.

use vstd::prelude::*;
use vstd::string::*;
use crate::error::AssemblyError;
use crate::error::AssemblyErrorView;
use crate::error::ConfigurationError;
use crate::error::ConfigurationErrorView;
use crate::error::IoError;
use crate::error::IoErrorView;
use crate::json::manifest_json;
use crate::json::manifest_to_json;
use crate::settings::BlobEntry;
use crate::settings::BlobEntryView;
use crate::settings::KvNamespace;
use crate::settings::KvNamespaceView;
use crate::settings::ScriptFormat;
use crate::settings::Target;
use crate::settings::Variable;
use crate::settings::VariableView;
use crate::text::first_true;
use crate::text::lemma_first_true_none;
use crate::text::lemma_first_true_some;
use crate::text::texts;
use crate::upload::bundle::binding_names;
use crate::upload::bundle::binding_views;
use crate::upload::bundle::bundle_result_view;
use crate::upload::bundle::distinct;
use crate::upload::bundle::find_first_repeat;
use crate::upload::bundle::first_repeated_name;
use crate::upload::bundle::lemma_shared_name_is_found;
use crate::upload::bundle::module_views;
use crate::upload::bundle::modules_bundle;
use crate::upload::bundle::service_worker_bundle;
use crate::upload::bundle::Binding;
use crate::upload::bundle::BindingKind;
use crate::upload::bundle::BindingView;
use crate::upload::bundle::Bundle;
use crate::upload::bundle::BundleView;
use crate::upload::bundle::Module;
use crate::upload::bundle::ModuleView;
use crate::upload::names::file_name_of;
use crate::upload::names::filename_from_path;

verus! {

/// One static asset: the path under which it is asked for, and the key
/// under which it is stored.
#[derive(Clone, Debug)]
pub struct AssetEntry {
    pub path: String,
    pub key: String,
}

/// The static-asset manifest, as the site packaging step supplies it: a
/// map from the paths of the assets to their keys. No path occurs twice.
#[derive(Debug)]
pub struct AssetManifest {
    entries: Vec<AssetEntry>,
}

/// The paths of the entries, in order.
pub open spec fn asset_paths(entries: Seq<AssetEntry>) -> Seq<Seq<char>> {
    entries.map_values(|e: AssetEntry| e.path@)
}

/// The entries as pairs of path and key.
pub open spec fn asset_pairs(entries: Seq<AssetEntry>) -> Seq<(Seq<char>, Seq<char>)> {
    entries.map_values(|e: AssetEntry| (e.path@, e.key@))
}

impl View for AssetManifest {
    type V = Seq<(Seq<char>, Seq<char>)>;

    closed spec fn view(&self) -> Seq<(Seq<char>, Seq<char>)> {
        asset_pairs(self.entries@)
    }
}

impl AssetManifest {
    /// What holds of every manifest: no path occurs twice.
    #[verifier::type_invariant]
    pub closed spec fn wf(&self) -> bool {
        distinct(asset_paths(self.entries@))
    }

    /// The manifest of these entries. `None` where two entries have one
    /// path.
    pub fn new(entries: Vec<AssetEntry>) -> (manifest: Option<AssetManifest>)
        ensures
            manifest is Some <==> distinct(asset_paths(entries@)),
            manifest matches Some(m) ==> m@ == asset_pairs(entries@),
    {
        let mut paths: Vec<String> = Vec::new();
        let mut i: usize = 0;
        while i < entries.len()
            invariant
                i <= entries.len(),
                paths.len() == i,
                forall|k: int| 0 <= k < i ==> (#[trigger] paths[k])@ == entries[k].path@,
            decreases entries.len() - i,
        {
            paths.push(entries[i].path.clone());
            i += 1;
        }
        assert(texts(paths@) =~= asset_paths(entries@));
        match find_first_repeat(&paths) {
            Some(_) => None,
            None => Some(AssetManifest { entries }),
        }
    }

    /// The entries of the manifest.
    pub fn entries(&self) -> (entries: &Vec<AssetEntry>)
        ensures
            asset_pairs(entries@) == self@,
            distinct(asset_paths(entries@)),
    {
        proof {
            use_type_invariant(self);
        }
        &self.entries
    }
}

/// A file that the filter admitted as a module, with what was read of it.
#[derive(Debug)]
pub struct ModuleSource {
    pub path: String,
    /// The bytes of the file; `None` where it could not be read.
    pub content: Option<Vec<u8>>,
}

/// What the caller read for one assembly.
#[derive(Debug)]
pub struct ProjectSources {
    /// The resolved entry: the script's path, or the path of the entry
    /// module. `None` where none could be resolved.
    pub entry: Option<String>,
    /// The text of each configured blob, in the order of the configuration;
    /// `None` for a file that could not be read. A blob without a place in
    /// this list counts as unreadable.
    pub blob_texts: Vec<Option<String>>,
    /// The admitted files of the upload directory, in the order of the walk.
    /// Read only for the module format.
    pub modules: Vec<ModuleSource>,
}

/// The text of the asset manifest, as far as it was asked for.
#[derive(Debug)]
pub enum ManifestText {
    /// No manifest goes into the bundle.
    Absent,
    Encoded(String),
    /// There is a manifest, and it could not be encoded.
    Failed,
}

pub enum ManifestTextView {
    Absent,
    Encoded(Seq<char>),
    Failed,
}

impl View for ManifestText {
    type V = ManifestTextView;

    open spec fn view(&self) -> ManifestTextView {
        match self {
            ManifestText::Absent => ManifestTextView::Absent,
            ManifestText::Encoded(t) => ManifestTextView::Encoded(t@),
            ManifestText::Failed => ManifestTextView::Failed,
        }
    }
}

/// The reserved name of the binding that carries the asset manifest.
pub open spec fn manifest_binding_name() -> Seq<char> {
    "__STATIC_CONTENT_MANIFEST"@
}

/// The text that was read for the blob at `i`, if any was.
pub open spec fn blob_text(texts: Seq<Option<String>>, i: int) -> Option<Seq<char>> {
    if 0 <= i < texts.len() {
        match texts[i] {
            Some(t) => Some(t@),
            None => None,
        }
    } else {
        None
    }
}

/// One plain-text binding for each inline variable.
pub open spec fn plain_text_bindings(vars: Seq<VariableView>) -> Seq<BindingView> {
    vars.map_values(
        |v: VariableView| BindingView { name: v.key, kind: BindingKind::PlainText, value: v.value },
    )
}

/// One text-blob binding for each configured blob, with the text that was
/// read for it.
pub open spec fn text_blob_bindings(
    blobs: Seq<BlobEntryView>,
    texts: Seq<Option<String>>,
) -> Seq<BindingView> {
    Seq::new(
        blobs.len(),
        |i: int|
            BindingView {
                name: blobs[i].binding,
                kind: BindingKind::TextBlob,
                value: blob_text(texts, i).unwrap(),
            },
    )
}

/// The manifest binding: one where a manifest text is at hand and the format
/// is the single script, none otherwise.
pub open spec fn manifest_bindings(format: ScriptFormat, manifest: ManifestTextView) -> Seq<
    BindingView,
> {
    match (format, manifest) {
        (ScriptFormat::ServiceWorker, ManifestTextView::Encoded(text)) => seq![
            BindingView {
                name: manifest_binding_name(),
                kind: BindingKind::AssetManifest,
                value: text,
            },
        ],
        _ => Seq::empty(),
    }
}

/// One namespace binding for each namespace reference, handed through.
pub open spec fn namespace_bindings(namespaces: Seq<KvNamespaceView>) -> Seq<BindingView> {
    namespaces.map_values(
        |k: KvNamespaceView|
            BindingView { name: k.binding, kind: BindingKind::KVNamespace, value: k.id },
    )
}

/// All bindings of a bundle, in the order in which they are attached: the
/// inline variables, the text blobs, the asset manifest, the namespaces.
pub open spec fn attached_bindings(
    target: Target,
    texts: Seq<Option<String>>,
    manifest: ManifestTextView,
) -> Seq<BindingView> {
    plain_text_bindings(target.var_views()) + text_blob_bindings(target.blob_views(), texts)
        + manifest_bindings(target.spec_format(), manifest) + namespace_bindings(
        target.kv_views(),
    )
}

/// Why a source cannot become a module, if it cannot: it was not read, or
/// its path has no file name.
pub open spec fn module_fault(source: ModuleSource) -> Option<AssemblyErrorView> {
    if source.content is None {
        Some(AssemblyErrorView::Io(IoErrorView { path: source.path@ }))
    } else if file_name_of(source.path@) is None {
        Some(
            AssemblyErrorView::Configuration(
                ConfigurationErrorView::FilenameRequired { path: source.path@ },
            ),
        )
    } else {
        None
    }
}

/// The module that a source without fault becomes: named after the file
/// alone, with the file's bytes.
pub open spec fn module_of(source: ModuleSource) -> ModuleView {
    ModuleView {
        name: file_name_of(source.path@).unwrap(),
        path: source.path@,
        content: source.content.unwrap()@,
    }
}

/// The modules of the sources, one each and in their order, or the fault of
/// the first source that has one.
pub open spec fn collected_modules(sources: Seq<ModuleSource>) -> Result<
    Seq<ModuleView>,
    AssemblyErrorView,
> {
    match first_faulty_module(sources) {
        Some(i) => Err(module_fault(sources[i]).unwrap()),
        None => Ok(sources.map_values(|s: ModuleSource| module_of(s))),
    }
}

/// Whether the blob at `i` has no text.
pub open spec fn blob_unreadable(texts: Seq<Option<String>>, i: int) -> bool {
    blob_text(texts, i) is None
}

/// For each of `n` configured blobs, whether it has no text.
pub open spec fn unreadable_blobs(texts: Seq<Option<String>>, n: nat) -> Seq<bool> {
    Seq::new(n, |i: int| blob_unreadable(texts, i))
}

/// The first of `n` configured blobs that has no text, if one has none.
pub open spec fn first_unreadable_blob(texts: Seq<Option<String>>, n: nat) -> Option<int> {
    first_true(unreadable_blobs(texts, n))
}

/// For each source, whether it cannot become a module.
pub open spec fn faulty_modules(sources: Seq<ModuleSource>) -> Seq<bool> {
    Seq::new(sources.len(), |i: int| module_fault(sources[i]) is Some)
}

/// The first source that cannot become a module, if there is one.
pub open spec fn first_faulty_module(sources: Seq<ModuleSource>) -> Option<int> {
    first_true(faulty_modules(sources))
}

/// A constructor's result as the result of an assembly.
pub open spec fn lifted(res: Result<BundleView, ConfigurationErrorView>) -> Result<
    BundleView,
    AssemblyErrorView,
> {
    match res {
        Ok(b) => Ok(b),
        Err(e) => Err(AssemblyErrorView::Configuration(e)),
    }
}

/// What an assembly returns. The steps, in order, and the failure of each:
/// every configured blob has its text (else the first unreadable one is
/// reported by its path); the entry is resolved; then, by format, either a
/// single script whose manifest text is at hand where there is a manifest,
/// or an entry with a file name among modules that were all read and all
/// have a file name; at last the bundle's own promises.
pub open spec fn assembled(
    target: Target,
    manifest: ManifestTextView,
    sources: ProjectSources,
) -> Result<BundleView, AssemblyErrorView> {
    let blobs = target.blob_views();
    let texts = sources.blob_texts@;
    let bindings = attached_bindings(target, texts, manifest);
    if let Some(i) = first_unreadable_blob(texts, blobs.len()) {
        Err(AssemblyErrorView::Io(IoErrorView { path: blobs[i].path }))
    } else if sources.entry is None {
        Err(AssemblyErrorView::Configuration(ConfigurationErrorView::EntryRequired))
    } else {
        let entry = sources.entry.unwrap()@;
        match target.spec_format() {
            ScriptFormat::ServiceWorker => {
                if manifest is Failed {
                    Err(AssemblyErrorView::Manifest)
                } else {
                    lifted(service_worker_bundle(entry, bindings))
                }
            },
            ScriptFormat::Modules => {
                match file_name_of(entry) {
                    None => Err(
                        AssemblyErrorView::Configuration(
                            ConfigurationErrorView::FilenameRequired { path: entry },
                        ),
                    ),
                    Some(name) => match collected_modules(sources.modules@) {
                        Err(e) => Err(e),
                        Ok(modules) => lifted(modules_bundle(name, modules, bindings)),
                    },
                }
            },
        }
    }
}

/// The view of an assembly's result.
pub open spec fn assembly_view(res: Result<Bundle, AssemblyError>) -> Result<
    BundleView,
    AssemblyErrorView,
> {
    match res {
        Ok(b) => Ok(b@),
        Err(e) => Err(e@),
    }
}

/// Appends one plain-text binding for each variable.
fn attach_plain_texts(bindings: &mut Vec<Binding>, vars: &Vec<Variable>)
    ensures
        binding_views(final(bindings)@) == binding_views(old(bindings)@) + plain_text_bindings(
            vars@.map_values(|v: Variable| v@),
        ),
{
    let ghost before = binding_views(bindings@);
    let ghost all = plain_text_bindings(vars@.map_values(|v: Variable| v@));
    let mut i: usize = 0;
    while i < vars.len()
        invariant
            i <= vars.len(),
            all == plain_text_bindings(vars@.map_values(|v: Variable| v@)),
            binding_views(bindings@) == before + all.take(i as int),
        decreases vars.len() - i,
    {
        let ghost prev = bindings@;
        bindings.push(
            Binding {
                name: vars[i].key.clone(),
                kind: BindingKind::PlainText,
                value: vars[i].value.clone(),
            },
        );
        assert(binding_views(bindings@) =~= binding_views(prev).push(all[i as int]));
        i += 1;
    }
}

/// Appends one text-blob binding for each configured blob. Fails at the
/// first blob that has no text, and then leaves `bindings` with the blobs
/// before it.
fn attach_text_blobs(
    bindings: &mut Vec<Binding>,
    blobs: &Vec<BlobEntry>,
    texts: &Vec<Option<String>>,
) -> (res: Result<(), IoError>)
    ensures
        match first_unreadable_blob(texts@, blobs.len() as nat) {
            Some(i) => res matches Err(e) && 0 <= i < blobs.len() && e@ == (IoErrorView {
                path: blobs[i].path@,
            }),
            None => res is Ok && binding_views(final(bindings)@) == binding_views(old(bindings)@)
                + text_blob_bindings(blobs@.map_values(|b: BlobEntry| b@), texts@),
        },
{
    let ghost before = binding_views(bindings@);
    let ghost all = text_blob_bindings(blobs@.map_values(|b: BlobEntry| b@), texts@);
    let ghost unreadable = unreadable_blobs(texts@, blobs.len() as nat);
    let mut i: usize = 0;
    while i < blobs.len()
        invariant
            i <= blobs.len(),
            all == text_blob_bindings(blobs@.map_values(|b: BlobEntry| b@), texts@),
            unreadable == unreadable_blobs(texts@, blobs.len() as nat),
            binding_views(bindings@) == before + all.take(i as int),
            forall|k: int| 0 <= k < i ==> !unreadable[k],
        decreases blobs.len() - i,
    {
        let text = if i < texts.len() {
            match &texts[i] {
                Some(t) => Some(t.clone()),
                None => None,
            }
        } else {
            None
        };
        match text {
            None => {
                proof {
                    lemma_first_true_some(unreadable, i as int);
                }
                return Err(IoError { path: blobs[i].path.clone() });
            },
            Some(value) => {
                let ghost prev = bindings@;
                bindings.push(
                    Binding {
                        name: blobs[i].binding.clone(),
                        kind: BindingKind::TextBlob,
                        value,
                    },
                );
                assert(binding_views(bindings@) =~= binding_views(prev).push(all[i as int]));
            },
        }
        i += 1;
    }
    proof {
        lemma_first_true_none(unreadable);
    }
    Ok(())
}

/// Appends one namespace binding for each namespace reference.
fn attach_namespaces(bindings: &mut Vec<Binding>, namespaces: &Vec<KvNamespace>)
    ensures
        binding_views(final(bindings)@) == binding_views(old(bindings)@) + namespace_bindings(
            namespaces@.map_values(|k: KvNamespace| k@),
        ),
{
    let ghost before = binding_views(bindings@);
    let ghost all = namespace_bindings(namespaces@.map_values(|k: KvNamespace| k@));
    let mut i: usize = 0;
    while i < namespaces.len()
        invariant
            i <= namespaces.len(),
            all == namespace_bindings(namespaces@.map_values(|k: KvNamespace| k@)),
            binding_views(bindings@) == before + all.take(i as int),
        decreases namespaces.len() - i,
    {
        let ghost prev = bindings@;
        bindings.push(
            Binding {
                name: namespaces[i].binding.clone(),
                kind: BindingKind::KVNamespace,
                value: namespaces[i].id.clone(),
            },
        );
        assert(binding_views(bindings@) =~= binding_views(prev).push(all[i as int]));
        i += 1;
    }
}

/// The bindings of a project: one plain text for each inline variable, one
/// text blob for each configured blob, the asset manifest where its text is
/// at hand and the format is the single script, and one namespace for each
/// namespace reference, in this order. Fails at the first configured blob
/// that has no text. Whether the names are unique is for the bundle's
/// constructors to check.
pub fn attach_bindings(target: &Target, texts: &Vec<Option<String>>, manifest: ManifestText) -> (res:
    Result<Vec<Binding>, IoError>)
    ensures
        match first_unreadable_blob(texts@, target.blob_views().len()) {
            Some(i) => res matches Err(e) && e@ == (IoErrorView {
                path: target.blob_views()[i].path,
            }),
            None => res matches Ok(bindings) && binding_views(bindings@) == attached_bindings(
                *target,
                texts@,
                manifest@,
            ),
        },
{
    let mut bindings: Vec<Binding> = Vec::new();
    if let Some(vars) = &target.vars {
        attach_plain_texts(&mut bindings, vars);
    }
    match &target.text_blobs {
        Some(blobs) => {
            if let Err(e) = attach_text_blobs(&mut bindings, blobs, texts) {
                return Err(e);
            }
        },
        None => {
            proof {
                lemma_first_true_none(unreadable_blobs(texts@, 0));
            }
        },
    }
    match (target.format(), manifest) {
        (ScriptFormat::ServiceWorker, ManifestText::Encoded(text)) => {
            bindings.push(
                Binding {
                    name: String::from_str("__STATIC_CONTENT_MANIFEST"),
                    kind: BindingKind::AssetManifest,
                    value: text,
                },
            );
        },
        _ => {},
    }
    attach_namespaces(&mut bindings, &target.kv_namespaces);
    Ok(bindings)
}

/// Turns the admitted files into modules, each named after its file alone.
/// Fails at the first file that was not read or whose path has no file
/// name.
pub fn collect_modules(sources: Vec<ModuleSource>) -> (res: Result<Vec<Module>, AssemblyError>)
    ensures
        match collected_modules(sources@) {
            Ok(views) => res matches Ok(modules) && module_views(modules@) == views,
            Err(fault) => res matches Err(e) && e@ == fault,
        },
{
    let ghost faults = faulty_modules(sources@);
    let ghost all = sources@.map_values(|s: ModuleSource| module_of(s));
    let mut modules: Vec<Module> = Vec::new();
    for source in it: sources
        invariant
            it.seq() == sources@,
            faults == faulty_modules(sources@),
            all == sources@.map_values(|s: ModuleSource| module_of(s)),
            forall|k: int| 0 <= k < it.index() ==> !faults[k],
            module_views(modules@) =~= all.take(it.index() as int),
    {
        let ghost i = it.index() as int;
        let ModuleSource { path, content } = source;
        match content {
            None => {
                proof {
                    lemma_first_true_some(faults, i);
                }
                return Err(AssemblyError::Io(IoError { path }));
            },
            Some(bytes) => {
                match filename_from_path(path.as_str()) {
                    None => {
                        proof {
                            lemma_first_true_some(faults, i);
                        }
                        return Err(
                            AssemblyError::Configuration(
                                ConfigurationError::FilenameRequired { path },
                            ),
                        );
                    },
                    Some(name) => {
                        let ghost prev = modules@;
                        modules.push(Module { name, path, content: bytes });
                        assert(module_views(modules@) =~= module_views(prev).push(all[i]));
                    },
                }
            },
        }
    }
    proof {
        lemma_first_true_none(faults);
    }
    Ok(modules)
}

/// Carries a constructor's result over into the result of an assembly.
fn lift(res: Result<Bundle, ConfigurationError>) -> (out: Result<Bundle, AssemblyError>)
    ensures
        assembly_view(out) == lifted(bundle_result_view(res)),
{
    match res {
        Ok(b) => Ok(b),
        Err(e) => Err(AssemblyError::Configuration(e)),
    }
}

/// Assembles the bundle of `target` from what was read, with the manifest
/// text as given. The result is the one that [`assembled`] describes, for
/// every input: a bundle that keeps what bundles promise, or the failure of
/// the first step that fails. Nothing of a failed assembly is returned.
pub fn assemble(target: &Target, manifest: ManifestText, sources: ProjectSources) -> (res: Result<
    Bundle,
    AssemblyError,
>)
    ensures
        assembly_view(res) == assembled(*target, manifest@, sources),
        res matches Ok(b) ==> b@.wf() && b@.format == target.spec_format(),
{
    let ProjectSources { entry, blob_texts, modules } = sources;
    let failed = match &manifest {
        ManifestText::Failed => true,
        _ => false,
    };
    let bindings = match attach_bindings(target, &blob_texts, manifest) {
        Err(e) => {
            return Err(AssemblyError::Io(e));
        },
        Ok(bindings) => bindings,
    };
    let entry = match entry {
        None => {
            return Err(AssemblyError::Configuration(ConfigurationError::EntryRequired));
        },
        Some(entry) => entry,
    };
    match target.format() {
        ScriptFormat::ServiceWorker => {
            if failed {
                return Err(AssemblyError::Manifest);
            }
            lift(Bundle::service_worker(entry, bindings))
        },
        ScriptFormat::Modules => {
            let name = match filename_from_path(entry.as_str()) {
                None => {
                    return Err(
                        AssemblyError::Configuration(
                            ConfigurationError::FilenameRequired { path: entry },
                        ),
                    );
                },
                Some(name) => name,
            };
            let modules = match collect_modules(modules) {
                Err(e) => {
                    return Err(e);
                },
                Ok(modules) => modules,
            };
            lift(Bundle::modules(name, modules, bindings))
        },
    }
}

/// The manifest text of a project: the JSON text of the manifest where one
/// was supplied and the format is the single script, and none otherwise.
pub open spec fn manifest_text_for(
    target: Target,
    asset_manifest: Option<AssetManifest>,
) -> ManifestTextView {
    match (target.spec_format(), asset_manifest) {
        (ScriptFormat::ServiceWorker, Some(manifest)) => ManifestTextView::Encoded(
            manifest_json(manifest@),
        ),
        _ => ManifestTextView::Absent,
    }
}

/// Builds the bundle of `target`: encodes the asset manifest where one was
/// supplied and the format is the single script, and assembles. The result
/// is that of [`assemble`] with the manifest's JSON text.
pub fn build(target: &Target, asset_manifest: Option<AssetManifest>, sources: ProjectSources) -> (res:
    Result<Bundle, AssemblyError>)
    ensures
        assembly_view(res) == assembled(
            *target,
            manifest_text_for(*target, asset_manifest),
            sources,
        ),
        res matches Ok(b) ==> b@.wf() && b@.format == target.spec_format(),
{
    let manifest = match (target.format(), &asset_manifest) {
        (ScriptFormat::ServiceWorker, Some(m)) => match manifest_to_json(m.entries()) {
            Ok(text) => ManifestText::Encoded(text),
            Err(_) => ManifestText::Failed,
        },
        _ => ManifestText::Absent,
    };
    assemble(target, manifest, sources)
}

/// Two bindings of one name make no bundle: an assembly whose bindings
/// share a name fails. It fails with the first name that is seen twice
/// unless a step before the bundle's own checks has failed already.
pub proof fn lemma_shared_binding_name_fails(
    target: Target,
    manifest: ManifestTextView,
    sources: ProjectSources,
    i: int,
    j: int,
)
    requires
        0 <= i < j < attached_bindings(target, sources.blob_texts@, manifest).len(),
        attached_bindings(target, sources.blob_texts@, manifest)[i].name == attached_bindings(
            target,
            sources.blob_texts@,
            manifest,
        )[j].name,
    ensures
        assembled(target, manifest, sources) is Err,
        ({
            let names = binding_names(
                attached_bindings(target, sources.blob_texts@, manifest),
            );
            let steps_before_pass = {
                &&& first_unreadable_blob(sources.blob_texts@, target.blob_views().len()) is None
                &&& sources.entry is Some
                &&& match target.spec_format() {
                    ScriptFormat::ServiceWorker => !(manifest is Failed),
                    ScriptFormat::Modules => file_name_of(sources.entry.unwrap()@) is Some
                        && collected_modules(sources.modules@) is Ok,
                }
            };
            steps_before_pass ==> first_repeated_name(names) is Some && assembled(
                target,
                manifest,
                sources,
            ) == Err::<BundleView, AssemblyErrorView>(
                AssemblyErrorView::Configuration(
                    ConfigurationErrorView::DuplicateBindingName {
                        name: first_repeated_name(names).unwrap(),
                    },
                ),
            )
        }),
{
    let bindings = attached_bindings(target, sources.blob_texts@, manifest);
    let names = binding_names(bindings);
    lemma_shared_name_is_found(names, i, j);
}

} // verus!
