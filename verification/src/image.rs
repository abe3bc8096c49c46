//! Images: layered file system artifacts built from a Dockerfile.

use crate::ids::{is_id_text, random_id, unix_now};
use crate::jail::{clone_opt, opt_view};
use crate::strmap::StringMap;
use crate::text::{chars_of, concat2, is_text, lower, str_views, to_lower};
use vstd::prelude::*;

verus! {

/// The identifier of an image.
pub type ImageId = String;

/// The state of an image.
#[derive(Debug, Clone, Copy, PartialEq, Eq, Structural)]
pub enum ImageState {
    Building,
    Available,
    Deleted,
}

impl ImageState {
    /// The state's name.
    pub open spec fn name(self) -> Seq<char> {
        match self {
            ImageState::Building => "building"@,
            ImageState::Available => "available"@,
            ImageState::Deleted => "deleted"@,
        }
    }

    /// The state that `s` names, whatever the case of its ASCII letters.
    pub open spec fn named(s: Seq<char>) -> Option<ImageState> {
        let l = lower(s);
        if l == "building"@ {
            Some(ImageState::Building)
        } else if l == "available"@ {
            Some(ImageState::Available)
        } else if l == "deleted"@ {
            Some(ImageState::Deleted)
        } else {
            None
        }
    }

    /// The state's name.
    pub fn as_str(&self) -> (r: &'static str)
        ensures
            r@ == self.name(),
    {
        match self {
            ImageState::Building => "building",
            ImageState::Available => "available",
            ImageState::Deleted => "deleted",
        }
    }

    /// The state's name as a string.
    pub fn to_string(&self) -> (r: String)
        ensures
            r@ == self.name(),
    {
        self.as_str().to_owned()
    }

    /// Reads a state's name, ignoring the case of ASCII letters.
    pub fn parse(s: &str) -> (r: Result<ImageState, String>)
        ensures
            match ImageState::named(s@) {
                Some(st) => r == Ok::<ImageState, String>(st),
                None => r matches Err(m) && m@ == "Invalid ImageState: "@ + s@,
            },
    {
        let l = to_lower(&chars_of(s));
        if is_text(&l, "building") {
            Ok(ImageState::Building)
        } else if is_text(&l, "available") {
            Ok(ImageState::Available)
        } else if is_text(&l, "deleted") {
            Ok(ImageState::Deleted)
        } else {
            Err(concat2("Invalid ImageState: ", s))
        }
    }
}

impl std::str::FromStr for ImageState {
    type Err = String;

    fn from_str(s: &str) -> (r: Result<ImageState, String>) {
        ImageState::parse(s)
    }
}

/// One instruction of a Dockerfile.
#[derive(Debug, PartialEq)]
pub enum DockerfileInstruction {
    From(String),
    Bootstrap { version: Option<String>, architecture: Option<String>, mirror: Option<String> },
    Run(String),
    Copy { from: Option<String>, src: String, dest: String },
    Add { src: String, dest: String },
    WorkDir(String),
    Env(StringMap),
    Expose(Vec<u16>),
    User(String),
    Volume(Vec<String>),
    Cmd(Vec<String>),
    Entrypoint(Vec<String>),
    Label(StringMap),
}

/// An instruction as a mathematical value.
pub enum InstructionView {
    From(Seq<char>),
    Bootstrap {
        version: Option<Seq<char>>,
        architecture: Option<Seq<char>>,
        mirror: Option<Seq<char>>,
    },
    Run(Seq<char>),
    Copy { from: Option<Seq<char>>, src: Seq<char>, dest: Seq<char> },
    Add { src: Seq<char>, dest: Seq<char> },
    WorkDir(Seq<char>),
    Env(Map<Seq<char>, Seq<char>>),
    Expose(Seq<u16>),
    User(Seq<char>),
    Volume(Seq<Seq<char>>),
    Cmd(Seq<Seq<char>>),
    Entrypoint(Seq<Seq<char>>),
    Label(Map<Seq<char>, Seq<char>>),
}

impl View for DockerfileInstruction {
    type V = InstructionView;

    open spec fn view(&self) -> InstructionView {
        match self {
            DockerfileInstruction::From(s) => InstructionView::From(s@),
            DockerfileInstruction::Bootstrap { version, architecture, mirror } => {
                InstructionView::Bootstrap {
                    version: opt_view(*version),
                    architecture: opt_view(*architecture),
                    mirror: opt_view(*mirror),
                }
            },
            DockerfileInstruction::Run(s) => InstructionView::Run(s@),
            DockerfileInstruction::Copy { from, src, dest } => InstructionView::Copy {
                from: opt_view(*from),
                src: src@,
                dest: dest@,
            },
            DockerfileInstruction::Add { src, dest } => InstructionView::Add {
                src: src@,
                dest: dest@,
            },
            DockerfileInstruction::WorkDir(s) => InstructionView::WorkDir(s@),
            DockerfileInstruction::Env(m) => InstructionView::Env(m@),
            DockerfileInstruction::Expose(p) => InstructionView::Expose(p@),
            DockerfileInstruction::User(s) => InstructionView::User(s@),
            DockerfileInstruction::Volume(v) => InstructionView::Volume(str_views(v@)),
            DockerfileInstruction::Cmd(v) => InstructionView::Cmd(str_views(v@)),
            DockerfileInstruction::Entrypoint(v) => InstructionView::Entrypoint(str_views(v@)),
            DockerfileInstruction::Label(m) => InstructionView::Label(m@),
        }
    }
}

/// A copy of a list of strings.
pub fn clone_strings(v: &Vec<String>) -> (r: Vec<String>)
    ensures
        str_views(r@) == str_views(v@),
{
    let mut out: Vec<String> = Vec::new();
    let mut i: usize = 0;
    while i < v.len()
        invariant
            i <= v.len(),
            out.len() == i,
            forall|j: int| 0 <= j < i ==> (#[trigger] out@[j])@ == v@[j]@,
        decreases v.len() - i,
    {
        out.push(v[i].clone());
        i += 1;
    }
    assert(str_views(out@) =~= str_views(v@));
    out
}

/// A copy of a list of ports.
pub fn clone_u16s(v: &Vec<u16>) -> (r: Vec<u16>)
    ensures
        r@ == v@,
{
    let mut out: Vec<u16> = Vec::new();
    let mut i: usize = 0;
    while i < v.len()
        invariant
            i <= v.len(),
            out@ == v@.take(i as int),
        decreases v.len() - i,
    {
        out.push(v[i]);
        i += 1;
        assert(out@ =~= v@.take(i as int));
    }
    assert(v@.take(v.len() as int) =~= v@);
    out
}

/// An optional list of strings as a value.
pub open spec fn opt_list_view(o: Option<Vec<String>>) -> Option<Seq<Seq<char>>> {
    match o {
        Some(v) => Some(str_views(v@)),
        None => None,
    }
}

/// A copy of an optional list of strings.
pub fn clone_opt_strings(o: &Option<Vec<String>>) -> (r: Option<Vec<String>>)
    ensures
        opt_list_view(r) == opt_list_view(*o),
{
    match o {
        Some(v) => Some(clone_strings(v)),
        None => None,
    }
}

impl DockerfileInstruction {
    /// A copy of the instruction.
    pub fn duplicate(&self) -> (r: DockerfileInstruction)
        ensures
            r@ == self@,
    {
        match self {
            DockerfileInstruction::From(s) => DockerfileInstruction::From(s.clone()),
            DockerfileInstruction::Bootstrap { version, architecture, mirror } => {
                DockerfileInstruction::Bootstrap {
                    version: clone_opt(version),
                    architecture: clone_opt(architecture),
                    mirror: clone_opt(mirror),
                }
            },
            DockerfileInstruction::Run(s) => DockerfileInstruction::Run(s.clone()),
            DockerfileInstruction::Copy { from, src, dest } => DockerfileInstruction::Copy {
                from: clone_opt(from),
                src: src.clone(),
                dest: dest.clone(),
            },
            DockerfileInstruction::Add { src, dest } => DockerfileInstruction::Add {
                src: src.clone(),
                dest: dest.clone(),
            },
            DockerfileInstruction::WorkDir(s) => DockerfileInstruction::WorkDir(s.clone()),
            DockerfileInstruction::Env(m) => DockerfileInstruction::Env(m.duplicate()),
            DockerfileInstruction::Expose(p) => DockerfileInstruction::Expose(clone_u16s(p)),
            DockerfileInstruction::User(s) => DockerfileInstruction::User(s.clone()),
            DockerfileInstruction::Volume(v) => DockerfileInstruction::Volume(clone_strings(v)),
            DockerfileInstruction::Cmd(v) => DockerfileInstruction::Cmd(clone_strings(v)),
            DockerfileInstruction::Entrypoint(v) => DockerfileInstruction::Entrypoint(
                clone_strings(v),
            ),
            DockerfileInstruction::Label(m) => DockerfileInstruction::Label(m.duplicate()),
        }
    }
}

impl Clone for DockerfileInstruction {
    fn clone(&self) -> (r: DockerfileInstruction)
        ensures
            r@ == self@,
    {
        self.duplicate()
    }
}

/// The instructions of a list as values.
pub open spec fn instructions_view(v: Seq<DockerfileInstruction>) -> Seq<InstructionView> {
    Seq::new(v.len(), |i: int| v[i]@)
}

/// A copy of a list of instructions.
pub fn clone_instructions(v: &Vec<DockerfileInstruction>) -> (r: Vec<DockerfileInstruction>)
    ensures
        instructions_view(r@) == instructions_view(v@),
{
    let mut out: Vec<DockerfileInstruction> = Vec::new();
    let mut i: usize = 0;
    while i < v.len()
        invariant
            i <= v.len(),
            out.len() == i,
            forall|j: int| 0 <= j < i ==> (#[trigger] out@[j])@ == v@[j]@,
        decreases v.len() - i,
    {
        out.push(v[i].duplicate());
        i += 1;
    }
    assert(instructions_view(out@) =~= instructions_view(v@));
    out
}

/// What an image says of the processes started from it.
#[derive(Debug, PartialEq)]
pub struct ImageConfig {
    pub env: StringMap,
    pub workdir: Option<String>,
    pub user: Option<String>,
    pub exposed_ports: Vec<u16>,
    pub volumes: Vec<String>,
    pub entrypoint: Option<Vec<String>>,
    pub cmd: Option<Vec<String>>,
    pub labels: StringMap,
}

/// An image configuration as a value.
pub struct ImageConfigView {
    pub env: Map<Seq<char>, Seq<char>>,
    pub workdir: Option<Seq<char>>,
    pub user: Option<Seq<char>>,
    pub exposed_ports: Seq<u16>,
    pub volumes: Seq<Seq<char>>,
    pub entrypoint: Option<Seq<Seq<char>>>,
    pub cmd: Option<Seq<Seq<char>>>,
    pub labels: Map<Seq<char>, Seq<char>>,
}

impl ImageConfigView {
    /// The configuration that says nothing.
    pub open spec fn empty() -> ImageConfigView {
        ImageConfigView {
            env: Map::empty(),
            workdir: None,
            user: None,
            exposed_ports: Seq::empty(),
            volumes: Seq::empty(),
            entrypoint: None,
            cmd: None,
            labels: Map::empty(),
        }
    }
}

impl View for ImageConfig {
    type V = ImageConfigView;

    open spec fn view(&self) -> ImageConfigView {
        ImageConfigView {
            env: self.env@,
            workdir: opt_view(self.workdir),
            user: opt_view(self.user),
            exposed_ports: self.exposed_ports@,
            volumes: str_views(self.volumes@),
            entrypoint: opt_list_view(self.entrypoint),
            cmd: opt_list_view(self.cmd),
            labels: self.labels@,
        }
    }
}

impl Default for ImageConfig {
    fn default() -> (r: ImageConfig)
        ensures
            r@ == ImageConfigView::empty(),
    {
        let r = ImageConfig {
            env: StringMap::new(),
            workdir: None,
            user: None,
            exposed_ports: Vec::new(),
            volumes: Vec::new(),
            entrypoint: None,
            cmd: None,
            labels: StringMap::new(),
        };
        assert(r@.exposed_ports =~= Seq::empty());
        assert(r@.volumes =~= Seq::empty());
        r
    }
}

impl ImageConfig {
    /// A copy of the configuration.
    pub fn duplicate(&self) -> (r: ImageConfig)
        ensures
            r@ == self@,
    {
        ImageConfig {
            env: self.env.duplicate(),
            workdir: clone_opt(&self.workdir),
            user: clone_opt(&self.user),
            exposed_ports: clone_u16s(&self.exposed_ports),
            volumes: clone_strings(&self.volumes),
            entrypoint: clone_opt_strings(&self.entrypoint),
            cmd: clone_opt_strings(&self.cmd),
            labels: self.labels.duplicate(),
        }
    }
}

impl Clone for ImageConfig {
    fn clone(&self) -> (r: ImageConfig)
        ensures
            r@ == self@,
    {
        self.duplicate()
    }
}

/// An image.
#[derive(Debug, PartialEq)]
pub struct Image {
    pub id: ImageId,
    pub name: String,
    /// The image this one was built upon, if any.
    pub parent_id: Option<ImageId>,
    /// The snapshot that holds the image, as `dataset@name`.
    pub snapshot: String,
    /// The instructions the image was built from.
    pub dockerfile: Vec<DockerfileInstruction>,
    pub config: ImageConfig,
    pub size_bytes: u64,
    pub state: ImageState,
    pub created_at: i64,
}

/// An image as a value.
pub struct ImageView {
    pub id: Seq<char>,
    pub name: Seq<char>,
    pub parent_id: Option<Seq<char>>,
    pub snapshot: Seq<char>,
    pub dockerfile: Seq<InstructionView>,
    pub config: ImageConfigView,
    pub size_bytes: u64,
    pub state: ImageState,
    pub created_at: i64,
}

impl View for Image {
    type V = ImageView;

    open spec fn view(&self) -> ImageView {
        ImageView {
            id: self.id@,
            name: self.name@,
            parent_id: opt_view(self.parent_id),
            snapshot: self.snapshot@,
            dockerfile: instructions_view(self.dockerfile@),
            config: self.config@,
            size_bytes: self.size_bytes,
            state: self.state,
            created_at: self.created_at,
        }
    }
}

impl Image {
    /// A new image in state `Building`, with a fresh identifier, no parent,
    /// no snapshot, and the current time as its time of creation.
    pub fn new(name: String, dockerfile: Vec<DockerfileInstruction>) -> (r: Image)
        ensures
            is_id_text(r@.id),
            r@ == (ImageView {
                id: r@.id,
                name: name@,
                parent_id: None,
                snapshot: Seq::empty(),
                dockerfile: instructions_view(dockerfile@),
                config: ImageConfigView::empty(),
                size_bytes: 0,
                state: ImageState::Building,
                created_at: r@.created_at,
            }),
    {
        Image {
            id: Image::generate_id(),
            name,
            parent_id: None,
            snapshot: String::new(),
            dockerfile,
            config: ImageConfig::default(),
            size_bytes: 0,
            state: ImageState::Building,
            created_at: unix_now(),
        }
    }

    /// A fresh image identifier.
    pub fn generate_id() -> (r: ImageId)
        ensures
            is_id_text(r@),
    {
        random_id()
    }

    /// Sets the parent.
    pub fn with_parent(self, parent_id: ImageId) -> (r: Image)
        ensures
            r@ == (ImageView { parent_id: Some(parent_id@), ..self@ }),
    {
        let mut i = self;
        i.parent_id = Some(parent_id);
        i
    }

    /// Sets the snapshot.
    pub fn with_snapshot(self, snapshot: String) -> (r: Image)
        ensures
            r@ == (ImageView { snapshot: snapshot@, ..self@ }),
    {
        let mut i = self;
        i.snapshot = snapshot;
        i
    }

    /// Sets the configuration.
    pub fn with_config(self, config: ImageConfig) -> (r: Image)
        ensures
            r@ == (ImageView { config: config@, ..self@ }),
    {
        let mut i = self;
        i.config = config;
        i
    }

    /// Sets the size.
    pub fn with_size(self, size_bytes: u64) -> (r: Image)
        ensures
            r@ == (ImageView { size_bytes, ..self@ }),
    {
        let mut i = self;
        i.size_bytes = size_bytes;
        i
    }

    /// Sets the state.
    pub fn with_state(self, state: ImageState) -> (r: Image)
        ensures
            r@ == (ImageView { state, ..self@ }),
    {
        let mut i = self;
        i.state = state;
        i
    }

    /// Whether the image can be used.
    pub fn is_available(&self) -> (r: bool)
        ensures
            r == (self.state == ImageState::Available),
    {
        match self.state {
            ImageState::Available => true,
            _ => false,
        }
    }

    /// Whether the image is being built.
    pub fn is_building(&self) -> (r: bool)
        ensures
            r == (self.state == ImageState::Building),
    {
        match self.state {
            ImageState::Building => true,
            _ => false,
        }
    }

    /// Whether the image was deleted.
    pub fn is_deleted(&self) -> (r: bool)
        ensures
            r == (self.state == ImageState::Deleted),
    {
        match self.state {
            ImageState::Deleted => true,
            _ => false,
        }
    }

    /// A copy of the image.
    pub fn duplicate(&self) -> (r: Image)
        ensures
            r@ == self@,
    {
        Image {
            id: self.id.clone(),
            name: self.name.clone(),
            parent_id: clone_opt(&self.parent_id),
            snapshot: self.snapshot.clone(),
            dockerfile: clone_instructions(&self.dockerfile),
            config: self.config.duplicate(),
            size_bytes: self.size_bytes,
            state: self.state,
            created_at: self.created_at,
        }
    }
}

impl Clone for Image {
    fn clone(&self) -> (r: Image)
        ensures
            r@ == self@,
    {
        self.duplicate()
    }
}

} // verus!
