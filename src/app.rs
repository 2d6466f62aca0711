//! The application core: a two-mode state machine over events, and the view
//! derived from its model.
use vstd::prelude::*;
use crate::capabilities::{
    Capabilities, CapabilityContext, Continuation, ContextV, OperationV, OutputV, TagReaderOutput,
    issue_spec, render_spec,
};
use crate::catalog::{
    ANIMAL_COUNT, HOST, animal_emoji, animal_name, find_animal, lookup, spec_animal_emoji,
    spec_animal_name,
};
use crate::location::{parse_url, url_error, url_host, url_parses, url_path};

verus! {

/// The path that an animal URL starts with, before the animal's name.
pub const ANIMAL_PATH: &'static str = "/animal/";

/// The two operating modes.
#[derive(Clone, Copy, Debug, PartialEq, Eq, Structural)]
pub enum Mode {
    Configure,
    Practice,
}

/// What can happen to the core.
#[derive(Clone, Debug)]
pub enum Event {
    SetMode(Mode),
    Scan,
    ScannedUrl(TagReaderOutput),
    WriteTag(String),
    TagWritten(TagReaderOutput),
}

pub enum EventV {
    SetMode(Mode),
    Scan,
    ScannedUrl(OutputV),
    WriteTag(Seq<char>),
    TagWritten(OutputV),
}

impl View for Event {
    type V = EventV;

    open spec fn view(&self) -> EventV {
        match self {
            Event::SetMode(m) => EventV::SetMode(*m),
            Event::Scan => EventV::Scan,
            Event::ScannedUrl(o) => EventV::ScannedUrl(o@),
            Event::WriteTag(a) => EventV::WriteTag(a@),
            Event::TagWritten(o) => EventV::TagWritten(o@),
        }
    }
}

/// An entry of the animal catalog.
#[derive(Debug)]
pub struct Animal {
    idx: usize,
}

impl Animal {
    #[verifier::type_invariant]
    spec fn in_catalog(self) -> bool {
        self.idx < ANIMAL_COUNT
    }

    /// The entry's position in the catalog.
    pub closed spec fn index(self) -> int {
        self.idx as int
    }

    pub fn name(&self) -> (r: &'static str)
        ensures
            r@ == spec_animal_name(self.index()),
    {
        proof {
            use_type_invariant(self);
        }
        animal_name(self.idx)
    }

    pub fn emoji(&self) -> (r: &'static str)
        ensures
            r@ == spec_animal_emoji(self.index()),
    {
        proof {
            use_type_invariant(self);
        }
        animal_emoji(self.idx)
    }
}

/// The model: one variant per mode, so the mode cannot drift from the state.
#[derive(Debug)]
pub enum Model {
    Practice { animal: Option<Animal>, error: Option<String> },
    Configure { error: Option<String> },
}

pub enum ModelV {
    Practice { animal: Option<int>, error: Option<Seq<char>> },
    Configure { error: Option<Seq<char>> },
}

pub open spec fn opt_view(s: Option<String>) -> Option<Seq<char>> {
    match s {
        Some(t) => Some(t@),
        None => None,
    }
}

impl View for Model {
    type V = ModelV;

    open spec fn view(&self) -> ModelV {
        match self {
            Model::Practice { animal, error } => ModelV::Practice {
                animal: match animal {
                    Some(a) => Some(a.index()),
                    None => None,
                },
                error: opt_view(*error),
            },
            Model::Configure { error } => ModelV::Configure { error: opt_view(*error) },
        }
    }
}

impl Default for Model {
    fn default() -> (r: Model)
        ensures
            r@ == (ModelV::Practice { animal: None, error: None }),
    {
        Model::Practice { animal: None, error: None }
    }
}

pub open spec fn mode_of(m: ModelV) -> Mode {
    match m {
        ModelV::Practice { .. } => Mode::Practice,
        ModelV::Configure { .. } => Mode::Configure,
    }
}

/// What a scanned URL names: a catalog index, or the message saying why not.
pub open spec fn animal_from_parts_spec(host: Option<Seq<char>>, path: Seq<char>) -> Result<int, Seq<char>> {
    match host {
        None => Err("Url missing host string"@),
        Some(h) => if h != HOST@ {
            Err("Unknown host "@ + h)
        } else if !ANIMAL_PATH@.is_prefix_of(path) {
            Err("Invalid animal URL"@)
        } else {
            let name = path.skip(ANIMAL_PATH@.len() as int);
            match lookup(name) {
                Some(i) => Ok(i),
                None => Err("Animal not found: "@ + name),
            }
        },
    }
}

pub open spec fn animal_from_url_spec(u: Seq<char>) -> Result<int, Seq<char>> {
    if url_parses(u) {
        animal_from_parts_spec(url_host(u), url_path(u))
    } else {
        Err(url_error(u))
    }
}

/// `s` without `prefix`, if it starts with it.
fn strip_prefix<'a>(s: &'a str, prefix: &str) -> (r: Option<&'a str>)
    ensures
        match r {
            Some(t) => prefix@.is_prefix_of(s@) && t@ == s@.skip(prefix@.len() as int),
            None => !prefix@.is_prefix_of(s@),
        },
{
    let n = prefix.unicode_len();
    let len = s.unicode_len();
    if n > len {
        return None;
    }
    let mut j: usize = 0;
    while j < n
        invariant
            n == prefix@.len(),
            len == s@.len(),
            n <= len,
            j <= n,
            forall|k: int| 0 <= k < j ==> prefix@[k] == s@[k],
        decreases n - j,
    {
        if prefix.get_char(j) != s.get_char(j) {
            return None;
        }
        j = j + 1;
    }
    let t = s.substring_char(n, len);
    assert(t@ =~= s@.skip(n as int));
    Some(t)
}

impl Animal {
    /// The animal that the parts of a scanned URL name.
    pub fn from_parts(host: Option<&str>, path: &str) -> (r: Result<Animal, String>)
        ensures
            match (r, animal_from_parts_spec(
                match host {
                    Some(h) => Some(h@),
                    None => None,
                },
                path@,
            )) {
                (Ok(a), Ok(i)) => a.index() == i,
                (Err(e), Err(m)) => e@ == m,
                _ => false,
            },
    {
        let h = match host {
            None => {
                return Err(String::from_str("Url missing host string"));
            },
            Some(h) => h,
        };
        if String::from_str(h) != String::from_str(HOST) {
            let e = String::from_str("Unknown host ");
            return Err(e.concat(h));
        }
        let name = match strip_prefix(path, ANIMAL_PATH) {
            None => {
                return Err(String::from_str("Invalid animal URL"));
            },
            Some(name) => name,
        };
        match find_animal(name) {
            Some(idx) => Ok(Animal { idx }),
            None => {
                let e = String::from_str("Animal not found: ");
                Err(e.concat(name))
            },
        }
    }

    /// The animal that a scanned URL names.
    pub fn from_url(url_string: &str) -> (r: Result<Animal, String>)
        ensures
            match (r, animal_from_url_spec(url_string@)) {
                (Ok(a), Ok(i)) => a.index() == i,
                (Err(e), Err(m)) => e@ == m,
                _ => false,
            },
    {
        match parse_url(url_string) {
            Err(e) => Err(e),
            Ok(parts) => {
                let host = match &parts.host {
                    Some(h) => Some(h.as_str()),
                    None => None,
                };
                Animal::from_parts(host, parts.path.as_str())
            },
        }
    }
}

/// Refusal of an event that cannot occur in the current mode: the driver of
/// the core delivered events out of any order the core can produce.
#[derive(Clone, Copy, Debug, PartialEq, Eq, Structural)]
pub struct InvalidEvent {
    pub mode: Mode,
}

/// The event can occur in the mode of the model.
pub open spec fn accepts(m: ModelV, e: EventV) -> bool {
    match m {
        ModelV::Practice { .. } => match e {
            EventV::SetMode(_) | EventV::Scan => true,
            EventV::ScannedUrl(OutputV::Url(_)) | EventV::ScannedUrl(OutputV::Error(_)) => true,
            _ => false,
        },
        ModelV::Configure { .. } => match e {
            EventV::SetMode(_) | EventV::WriteTag(_) => true,
            EventV::TagWritten(OutputV::Written) | EventV::TagWritten(OutputV::Error(_)) => true,
            _ => false,
        },
    }
}

/// The model after an accepted event.
pub open spec fn next_model(m: ModelV, e: EventV) -> ModelV {
    match m {
        ModelV::Practice { .. } => match e {
            EventV::SetMode(Mode::Configure) => ModelV::Configure { error: None },
            EventV::ScannedUrl(OutputV::Url(u)) => match animal_from_url_spec(u) {
                Ok(i) => ModelV::Practice { animal: Some(i), error: None },
                Err(msg) => ModelV::Practice { animal: None, error: Some(msg) },
            },
            EventV::ScannedUrl(OutputV::Error(err)) => ModelV::Practice {
                animal: None,
                error: Some("Error reading tag: "@ + err),
            },
            _ => m,
        },
        ModelV::Configure { .. } => match e {
            EventV::SetMode(Mode::Practice) | EventV::TagWritten(OutputV::Written) => ModelV::Practice {
                animal: None,
                error: None,
            },
            EventV::TagWritten(OutputV::Error(err)) => ModelV::Configure {
                error: Some("Error writing tag: "@ + err),
            },
            _ => m,
        },
    }
}

/// The URL written to a tag for the animal called `name`.
pub open spec fn tag_url_spec(name: Seq<char>) -> Seq<char> {
    "https://"@ + HOST@ + ANIMAL_PATH@ + name
}

/// The tag request that an accepted event issues, with its continuation.
pub open spec fn requested(m: ModelV, e: EventV) -> Option<(OperationV, Continuation)> {
    match (m, e) {
        (ModelV::Practice { .. }, EventV::Scan) => Some((OperationV::ReadUrl, Continuation::ScannedUrl)),
        (ModelV::Configure { .. }, EventV::WriteTag(a)) => Some(
            (OperationV::WriteUrl(tag_url_spec(a)), Continuation::TagWritten),
        ),
        _ => None,
    }
}

/// The runtime after a pass over an accepted event: its tag request, if any,
/// then one render notification.
pub open spec fn pass_spec(c: ContextV, m: ModelV, e: EventV) -> ContextV {
    render_spec(
        match requested(m, e) {
            Some((op, k)) => issue_spec(c, op, k),
            None => c,
        },
    )
}

/// What the shell is shown.
#[derive(Clone, Debug, PartialEq)]
pub enum ViewModel {
    Practice { animal_emoji: String, error: Option<String> },
    Configure { known_animals: Vec<(String, String)>, error: Option<String> },
}

pub enum ViewModelV {
    Practice { animal_emoji: Seq<char>, error: Option<Seq<char>> },
    Configure { known_animals: Seq<(Seq<char>, Seq<char>)>, error: Option<Seq<char>> },
}

impl View for ViewModel {
    type V = ViewModelV;

    open spec fn view(&self) -> ViewModelV {
        match self {
            ViewModel::Practice { animal_emoji, error } => ViewModelV::Practice {
                animal_emoji: animal_emoji@,
                error: opt_view(*error),
            },
            ViewModel::Configure { known_animals, error } => ViewModelV::Configure {
                known_animals: known_animals@.map_values(|p: (String, String)| (p.0@, p.1@)),
                error: opt_view(*error),
            },
        }
    }
}

/// The catalog as (name, symbol) pairs, in order.
pub open spec fn catalog_entries() -> Seq<(Seq<char>, Seq<char>)> {
    Seq::new(ANIMAL_COUNT as nat, |i: int| (spec_animal_name(i), spec_animal_emoji(i)))
}

/// The view of a model.
pub open spec fn view_spec(m: ModelV) -> ViewModelV {
    match m {
        ModelV::Practice { animal, error } => ViewModelV::Practice {
            animal_emoji: match animal {
                Some(i) => spec_animal_emoji(i),
                None => "?"@,
            },
            error,
        },
        ModelV::Configure { error } => ViewModelV::Configure { known_animals: catalog_entries(), error },
    }
}

fn clone_error(e: &Option<String>) -> (r: Option<String>)
    ensures
        opt_view(r) == opt_view(*e),
{
    match e {
        Some(s) => Some(s.clone()),
        None => None,
    }
}

fn known_animals() -> (r: Vec<(String, String)>)
    ensures
        r@.map_values(|p: (String, String)| (p.0@, p.1@)) == catalog_entries(),
{
    let mut r: Vec<(String, String)> = Vec::new();
    let mut i: usize = 0;
    while i < ANIMAL_COUNT
        invariant
            i <= ANIMAL_COUNT,
            r@.len() == i,
            forall|j: int|
                0 <= j < i ==> (#[trigger] r@[j]).0@ == spec_animal_name(j) && r@[j].1@
                    == spec_animal_emoji(j),
        decreases ANIMAL_COUNT - i,
    {
        r.push((String::from_str(animal_name(i)), String::from_str(animal_emoji(i))));
        i = i + 1;
    }
    assert(r@.map_values(|p: (String, String)| (p.0@, p.1@)) =~= catalog_entries());
    r
}

/// The application: how events change the model, and what the shell sees.
pub struct AnimalHunt;

impl AnimalHunt {
    pub fn new() -> Self {
        AnimalHunt
    }

    /// Processes one event. An accepted event changes the model, issues its
    /// tag request if it has one, and always ends with one render
    /// notification. An event that cannot occur in the current mode is
    /// refused, and nothing changes.
    pub fn update(
        &self,
        event: Event,
        model: &mut Model,
        caps: &Capabilities,
        context: &mut CapabilityContext,
    ) -> (r: Result<(), InvalidEvent>)
        ensures
            r is Ok <==> accepts(old(model)@, event@),
            r is Ok ==> final(model)@ == next_model(old(model)@, event@) && final(context)@
                == pass_spec(old(context)@, old(model)@, event@),
            r matches Err(e) ==> e.mode == mode_of(old(model)@) && *final(model) == *old(model)
                && final(context)@ == old(context)@,
    {
        match model {
            Model::Practice { .. } => match event {
                Event::SetMode(Mode::Configure) => {
                    *model = Model::Configure { error: None };
                },
                Event::SetMode(Mode::Practice) => {},
                Event::Scan => {
                    caps.tag_reader.read_url(context, Continuation::ScannedUrl);
                },
                Event::ScannedUrl(TagReaderOutput::Url(url_string)) => {
                    *model = match Animal::from_url(url_string.as_str()) {
                        Ok(animal) => Model::Practice { animal: Some(animal), error: None },
                        Err(e) => Model::Practice { animal: None, error: Some(e) },
                    };
                },
                Event::ScannedUrl(TagReaderOutput::Error(err)) => {
                    let e = String::from_str("Error reading tag: ");
                    *model = Model::Practice { animal: None, error: Some(e.concat(err.as_str())) };
                },
                Event::WriteTag(_)
                | Event::TagWritten(_)
                | Event::ScannedUrl(TagReaderOutput::Written) => {
                    return Err(InvalidEvent { mode: Mode::Practice });
                },
            },
            Model::Configure { .. } => match event {
                Event::SetMode(Mode::Practice) | Event::TagWritten(TagReaderOutput::Written) => {
                    *model = Model::Practice { animal: None, error: None };
                },
                Event::SetMode(Mode::Configure) => {},
                Event::WriteTag(animal) => {
                    let url = String::from_str("https://").concat(HOST).concat(ANIMAL_PATH).concat(
                        animal.as_str(),
                    );
                    caps.tag_reader.write_url(context, url.as_str(), Continuation::TagWritten);
                },
                Event::TagWritten(TagReaderOutput::Error(err)) => {
                    let e = String::from_str("Error writing tag: ");
                    *model = Model::Configure { error: Some(e.concat(err.as_str())) };
                },
                Event::Scan | Event::ScannedUrl(_) | Event::TagWritten(TagReaderOutput::Url(_)) => {
                    return Err(InvalidEvent { mode: Mode::Configure });
                },
            },
        }
        caps.render.render(context);
        Ok(())
    }

    /// The view of the model; it reads the model and nothing else.
    pub fn view(&self, model: &Model) -> (r: ViewModel)
        ensures
            r@ == view_spec(model@),
    {
        match model {
            Model::Practice { animal, error } => match animal {
                Some(animal) => ViewModel::Practice {
                    animal_emoji: String::from_str(animal.emoji()),
                    error: clone_error(error),
                },
                None => ViewModel::Practice {
                    animal_emoji: String::from_str("?"),
                    error: clone_error(error),
                },
            },
            Model::Configure { error } => ViewModel::Configure {
                known_animals: known_animals(),
                error: clone_error(error),
            },
        }
    }
}

} // verus!
