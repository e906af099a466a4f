//! Project configuration as the pipeline consumes it.
//!
//! Loading and validating the configuration file is the caller's business;
//! these types only carry the values that the build, watch and upload steps
//! read.

use vstd::prelude::*;

verus! {

/// How the script is packaged for upload. A bundle has exactly one format.
#[derive(Clone, Copy, Debug, PartialEq, Eq, Structural)]
pub enum ScriptFormat {
    /// A single script, no module graph.
    ServiceWorker,
    /// A named entry module among a set of discovered modules.
    Modules,
}

/// A reference to a key-value namespace, handed through to the bundle as is.
#[derive(Clone, Debug)]
pub struct KvNamespace {
    pub binding: String,
    pub id: String,
}

pub struct KvNamespaceView {
    pub binding: Seq<char>,
    pub id: Seq<char>,
}

impl View for KvNamespace {
    type V = KvNamespaceView;

    open spec fn view(&self) -> KvNamespaceView {
        KvNamespaceView { binding: self.binding@, id: self.id@ }
    }
}

/// An inline variable: the key becomes a binding name, the value its text.
#[derive(Clone, Debug)]
pub struct Variable {
    pub key: String,
    pub value: String,
}

pub struct VariableView {
    pub key: Seq<char>,
    pub value: Seq<char>,
}

impl View for Variable {
    type V = VariableView;

    open spec fn view(&self) -> VariableView {
        VariableView { key: self.key@, value: self.value@ }
    }
}

/// A text blob: a binding name and the file whose contents it carries.
#[derive(Clone, Debug)]
pub struct BlobEntry {
    pub binding: String,
    pub path: String,
}

pub struct BlobEntryView {
    pub binding: Seq<char>,
    pub path: Seq<char>,
}

impl View for BlobEntry {
    type V = BlobEntryView;

    open spec fn view(&self) -> BlobEntryView {
        BlobEntryView { binding: self.binding@, path: self.path@ }
    }
}

/// The custom build step of a project.
#[derive(Clone, Debug)]
pub struct Builder {
    /// The external command line, if any.
    pub command: Option<String>,
    /// The directory that is watched for changes.
    pub watch_dir: String,
    /// The directory whose files are uploaded as modules.
    pub upload_dir: String,
    pub upload_format: ScriptFormat,
    /// Patterns of the files to upload. When present, `upload_exclude` is not
    /// consulted.
    pub upload_include: Option<Vec<String>>,
    /// Patterns of the files to leave out.
    pub upload_exclude: Option<Vec<String>>,
}

/// One deployable project.
#[derive(Clone, Debug)]
pub struct Target {
    pub name: String,
    pub kv_namespaces: Vec<KvNamespace>,
    pub build: Option<Builder>,
    pub text_blobs: Option<Vec<BlobEntry>>,
    pub vars: Option<Vec<Variable>>,
}

impl Target {
    /// The format in which this project is packaged: that of its build step,
    /// and a single script where it has none.
    pub open spec fn spec_format(&self) -> ScriptFormat {
        match self.build {
            Some(config) => config.upload_format,
            None => ScriptFormat::ServiceWorker,
        }
    }

    #[verifier::when_used_as_spec(spec_format)]
    pub fn format(&self) -> (f: ScriptFormat)
        ensures
            f == self.spec_format(),
    {
        match &self.build {
            Some(config) => config.upload_format,
            None => ScriptFormat::ServiceWorker,
        }
    }

    /// The configured inline variables, none where the table is absent.
    pub open spec fn var_views(&self) -> Seq<VariableView> {
        match self.vars {
            Some(vars) => vars@.map_values(|v: Variable| v@),
            None => Seq::empty(),
        }
    }

    /// The configured text blobs, none where the table is absent.
    pub open spec fn blob_views(&self) -> Seq<BlobEntryView> {
        match self.text_blobs {
            Some(blobs) => blobs@.map_values(|b: BlobEntry| b@),
            None => Seq::empty(),
        }
    }

    /// The configured namespace references.
    pub open spec fn kv_views(&self) -> Seq<KvNamespaceView> {
        self.kv_namespaces@.map_values(|k: KvNamespace| k@)
    }
}

} // verus!
