//! Audio nodes, diagnostics and the managed virtual microphone.

use std::path::PathBuf;

use vstd::prelude::*;

use crate::failure;
use crate::failure::{Failure, FailureKind};
use crate::json;
use crate::json::{parse_json, Json, JsonView};
use crate::order;
use crate::order::{sort, Keyed};
use crate::path;
use crate::path::{child, display};
use crate::text;
use crate::text::{
    contains, decode_lossy, ends_with, join2, join3, join4, lines, starts_with,
    to_ascii_lowercase,
};

verus! {

/// The sink that the managed configuration creates.
pub const MANAGED_SINK_NAME: &'static str = "soundboard_tui_mix";

/// The microphone that the managed sink offers to voice applications.
pub const MANAGED_SOURCE_NAME: &'static str = "soundboard_tui_mix.monitor";

/// The first line of a configuration file that this program may replace or remove.
pub const MANAGED_MARKER: &'static str = "# Managed by soundboard_tui";

/// The name of the managed configuration file.
pub const CONFIG_FILE_NAME: &'static str = "90-soundboard-tui.conf";

/// A source or a sink.
#[derive(Debug)]
pub struct AudioNode {
    pub name: String,
    pub description: String,
    pub is_virtual: bool,
}

impl Clone for AudioNode {
    fn clone(&self) -> (node: AudioNode)
        ensures
            node == *self,
    {
        AudioNode {
            name: self.name.clone(),
            description: self.description.clone(),
            is_virtual: self.is_virtual,
        }
    }
}

impl Keyed for AudioNode {
    open spec fn key(&self) -> Seq<u8> {
        vstd::utf8::encode_utf8(self.name@)
    }

    fn key_bytes(&self) -> (bytes: Vec<u8>) {
        vstd::slice::slice_to_vec(self.name.as_str().as_bytes())
    }
}

/// The nodes that were found, each list in the order of the nodes' names.
#[derive(Clone, Debug)]
pub struct AudioInventory {
    pub physical_sources: Vec<AudioNode>,
    pub sinks: Vec<AudioNode>,
    pub virtual_sources: Vec<AudioNode>,
}

impl Default for AudioInventory {
    fn default() -> (inventory: AudioInventory)
        ensures
            inventory.is_empty(),
    {
        AudioInventory {
            physical_sources: Vec::new(),
            sinks: Vec::new(),
            virtual_sources: Vec::new(),
        }
    }
}

impl AudioInventory {
    /// Nothing was found.
    pub open spec fn is_empty(self) -> bool {
        &&& self.physical_sources@.len() == 0
        &&& self.sinks@.len() == 0
        &&& self.virtual_sources@.len() == 0
    }
}

/// What works, what does not, and the nodes that were found.
#[derive(Clone, Debug)]
pub struct Diagnostics {
    pub pipewire_error: Option<String>,
    pub pulse_error: Option<String>,
    pub mpv_error: Option<String>,
    pub inventory: AudioInventory,
}

impl Default for Diagnostics {
    fn default() -> (diagnostics: Diagnostics)
        ensures
            diagnostics.pipewire_error is None,
            diagnostics.pulse_error is None,
            diagnostics.mpv_error is None,
            diagnostics.inventory.is_empty(),
    {
        Diagnostics {
            pipewire_error: None,
            pulse_error: None,
            mpv_error: None,
            inventory: AudioInventory::default(),
        }
    }
}

/// Some node of the list has this name.
pub open spec fn has_node(nodes: Seq<AudioNode>, name: Seq<char>) -> bool {
    exists|i: int| 0 <= i < nodes.len() && (#[trigger] nodes[i]).name@ == name
}

/// Whether some node of the list has this name.
pub fn contains_node(nodes: &Vec<AudioNode>, name: &str) -> (found: bool)
    ensures
        found == has_node(nodes@, name@),
{
    let mut i: usize = 0;
    while i < nodes.len()
        invariant
            i <= nodes@.len(),
            forall|k: int| 0 <= k < i ==> (#[trigger] nodes@[k]).name@ != name@,
        decreases nodes@.len() - i,
    {
        if nodes[i].name.as_str().eq(name) {
            return true;
        }
        i += 1;
    }
    false
}

/// The texts of a list.
pub open spec fn str_views(texts: Seq<&str>) -> Seq<Seq<char>> {
    texts.map_values(|text: &str| text@)
}

/// An optional message as a list of none or one.
pub open spec fn as_list(message: Option<String>) -> Seq<Seq<char>> {
    match message {
        Some(message) => seq![message@],
        None => Seq::empty(),
    }
}

impl Diagnostics {
    /// The messages of what does not work: PipeWire, then its Pulse server, then mpv.
    pub open spec fn messages(self) -> Seq<Seq<char>> {
        as_list(self.pipewire_error) + as_list(self.pulse_error) + as_list(self.mpv_error)
    }

    /// Whether sounds can be played.
    pub fn playback_ready(&self) -> (ready: bool)
        ensures
            ready == (self.pipewire_error is None && self.mpv_error is None),
    {
        self.pipewire_error.is_none() && self.mpv_error.is_none()
    }

    /// Whether the managed microphone can be created.
    pub fn creation_ready(&self) -> (ready: bool)
        ensures
            ready == (self.pipewire_error is None && self.pulse_error is None),
    {
        self.pipewire_error.is_none() && self.pulse_error.is_none()
    }

    /// The messages of what does not work.
    pub fn errors(&self) -> (errors: Vec<&str>)
        ensures
            str_views(errors@) == self.messages(),
    {
        let mut errors: Vec<&str> = Vec::new();
        if let Some(message) = &self.pipewire_error {
            errors.push(message.as_str());
        }
        if let Some(message) = &self.pulse_error {
            errors.push(message.as_str());
        }
        if let Some(message) = &self.mpv_error {
            errors.push(message.as_str());
        }
        assert(str_views(errors@) =~= self.messages());
        errors
    }

    /// Whether there is a sink with this name.
    pub fn has_sink(&self, name: &str) -> (found: bool)
        ensures
            found == has_node(self.inventory.sinks@, name@),
    {
        contains_node(&self.inventory.sinks, name)
    }
}

/// What is known of a node.
pub struct NodeView {
    pub name: Seq<char>,
    pub description: Seq<char>,
    pub is_virtual: bool,
}

/// What is known of a node.
pub open spec fn node_view(node: AudioNode) -> NodeView {
    NodeView {
        name: node.name@,
        description: node.description@,
        is_virtual: node.is_virtual,
    }
}

/// What is known of each node of a list.
pub open spec fn node_views(nodes: Seq<AudioNode>) -> Seq<NodeView> {
    nodes.map_values(|node: AudioNode| node_view(node))
}

/// The properties of an object of a dump: the object under `info`, `props`.
pub open spec fn properties(object: JsonView) -> Option<JsonView> {
    match object.field("info"@) {
        Some(info) => match info.field("props"@) {
            Some(props) => if props is Object {
                Some(props)
            } else {
                None
            },
            None => None,
        },
        None => None,
    }
}

/// Whether a property is switched on: true, one of the texts for it, or a positive number.
pub open spec fn truthy(value: Option<JsonView>) -> bool {
    match value {
        Some(JsonView::Bool(flag)) => flag,
        Some(JsonView::Text(text)) => text == "true"@ || text == "1"@ || text == "yes"@,
        Some(JsonView::Number(Some(number))) => number != 0,
        _ => false,
    }
}

/// The factory of the node makes null audio devices.
pub open spec fn made_by_null_factory(props: JsonView) -> bool {
    match props.text_field("factory.name"@) {
        Some(factory) => text::occurs_in("null-audio"@, factory),
        None => false,
    }
}

/// The marks of a virtual source.
pub open spec fn virtual_source(class: Seq<char>, name: Seq<char>, props: JsonView) -> bool {
    ||| class == "Audio/Source/Virtual"@
    ||| ".monitor"@.is_suffix_of(name)
    ||| truthy(props.field("node.virtual"@))
    ||| made_by_null_factory(props)
    ||| props.field("monitor.channel-volumes"@) is Some
}

/// The marks of a virtual sink.
pub open spec fn virtual_sink(props: JsonView) -> bool {
    ||| truthy(props.field("node.virtual"@))
    ||| made_by_null_factory(props)
    ||| props.field("device.id"@) is None && props.field("device.api"@) is None
}

/// The description of a node: its own, else its nick, else its name.
pub open spec fn described(props: JsonView, name: Seq<char>) -> Seq<char> {
    match props.text_field("node.description"@) {
        Some(description) => description,
        None => match props.text_field("node.nick"@) {
            Some(nick) => nick,
            None => name,
        },
    }
}

/// The class and the node of an object of a dump, where it has a class and a name.
pub open spec fn node_in(object: JsonView) -> Option<(Seq<char>, NodeView)> {
    match properties(object) {
        Some(props) => match (props.text_field("media.class"@), props.text_field("node.name"@)) {
            (Some(class), Some(name)) => Some(
                (
                    class,
                    NodeView {
                        name,
                        description: described(props, name),
                        is_virtual: virtual_source(class, name, props) || (class == "Audio/Sink"@
                            && virtual_sink(props)),
                    },
                ),
            ),
            _ => None,
        },
        None => None,
    }
}

/// The sink that an object describes.
pub open spec fn sink_in(object: JsonView) -> Option<NodeView> {
    match node_in(object) {
        Some((class, node)) => if class == "Audio/Sink"@ {
            Some(node)
        } else {
            None
        },
        None => None,
    }
}

/// The source that an object describes.
pub open spec fn source_in(object: JsonView) -> Option<NodeView> {
    match node_in(object) {
        Some((class, node)) => if class != "Audio/Sink"@ && (class == "Audio/Source"@ || class
            == "Audio/Source/Virtual"@) {
            Some(node)
        } else {
            None
        },
        None => None,
    }
}

/// The source that an object describes, where it is virtual as wanted.
pub open spec fn source_where(object: JsonView, is_virtual: bool) -> Option<NodeView> {
    match source_in(object) {
        Some(node) => if node.is_virtual == is_virtual {
            Some(node)
        } else {
            None
        },
        None => None,
    }
}

/// The nodes are the ones that were found, in the order of their names.
pub open spec fn listed(nodes: Seq<AudioNode>, found: Seq<NodeView>) -> bool {
    exists|unsorted: Seq<AudioNode>|
        node_views(unsorted) == found && #[trigger] order::stably_sorted(unsorted, nodes)
}

/// The objects of a dump.
pub open spec fn objects_of(dump: JsonView) -> Seq<JsonView> {
    match dump {
        JsonView::Array(objects) => objects,
        _ => Seq::empty(),
    }
}

/// The inventory lists the sinks and the sources that the dump describes.
pub open spec fn inventory_of(dump: JsonView, inventory: AudioInventory) -> bool {
    let objects = objects_of(dump);
    &&& listed(inventory.sinks@, objects.filter_map(|object: JsonView| sink_in(object)))
    &&& listed(
        inventory.virtual_sources@,
        objects.filter_map(|object: JsonView| source_where(object, true)),
    )
    &&& listed(
        inventory.physical_sources@,
        objects.filter_map(|object: JsonView| source_where(object, false)),
    )
}

/// The view of an optional document.
pub open spec fn optional_content(value: Option<&Json>) -> Option<JsonView> {
    match value {
        Some(json) => Some(json@),
        None => None,
    }
}

/// Whether a property is switched on.
fn truthy_property(value: Option<&Json>) -> (on: bool)
    ensures
        on == truthy(optional_content(value)),
{
    match value {
        Some(Json::Bool(flag)) => *flag,
        Some(Json::Text(text)) => text.as_str().eq("true") || text.as_str().eq("1")
            || text.as_str().eq("yes"),
        Some(Json::Number(Some(number))) => *number != 0,
        _ => false,
    }
}

fn null_factory(props: &Json) -> (null: bool)
    ensures
        null == made_by_null_factory(props@),
{
    match props.get_text("factory.name") {
        Some(factory) => contains(factory, "null-audio"),
        None => false,
    }
}

fn source_is_virtual(media_class: &str, name: &str, props: &Json) -> (is_virtual: bool)
    ensures
        is_virtual == virtual_source(media_class@, name@, props@),
{
    media_class.eq("Audio/Source/Virtual") || ends_with(name, ".monitor") || truthy_property(
        props.get("node.virtual"),
    ) || null_factory(props) || props.get("monitor.channel-volumes").is_some()
}

fn sink_is_virtual(props: &Json) -> (is_virtual: bool)
    ensures
        is_virtual == virtual_sink(props@),
{
    truthy_property(props.get("node.virtual")) || null_factory(props) || (props.get(
        "device.id",
    ).is_none() && props.get("device.api").is_none())
}

fn properties_of(object: &Json) -> (found: Option<&Json>)
    ensures
        optional_content(found) == properties(object@),
{
    match object.get("info") {
        Some(info) => match info.get("props") {
            Some(props) => match props {
                Json::Object(fields) => Some(props),
                _ => None,
            },
            None => None,
        },
        None => None,
    }
}

/// The class and the node of an object of a dump, where it has a class and a name.
pub fn node_of(object: &Json) -> (found: Option<(String, AudioNode)>)
    ensures
        match found {
            Some((class, node)) => node_in(object@) == Some((class@, node_view(node))),
            None => node_in(object@) is None,
        },
{
    let props = match properties_of(object) {
        Some(props) => props,
        None => return None,
    };
    let class = match props.get_text("media.class") {
        Some(class) => class,
        None => return None,
    };
    let name = match props.get_text("node.name") {
        Some(name) => name,
        None => return None,
    };
    let description = match props.get_text("node.description") {
        Some(description) => description,
        None => match props.get_text("node.nick") {
            Some(nick) => nick,
            None => name,
        },
    };
    let node = AudioNode {
        name: name.to_owned(),
        description: description.to_owned(),
        is_virtual: source_is_virtual(class, name, props) || (class.eq("Audio/Sink")
            && sink_is_virtual(props)),
    };
    Some((class.to_owned(), node))
}

/// The nodes that a dump of PipeWire's objects describes.
pub fn inventory_from_dump(dump: &Json) -> (inventory: AudioInventory)
    ensures
        inventory_of(dump@, inventory),
{
    let mut sinks: Vec<AudioNode> = Vec::new();
    let mut virtual_sources: Vec<AudioNode> = Vec::new();
    let mut physical_sources: Vec<AudioNode> = Vec::new();
    let ghost objects = objects_of(dump@);
    let ghost to_sink = |object: JsonView| sink_in(object);
    let ghost to_virtual = |object: JsonView| source_where(object, true);
    let ghost to_physical = |object: JsonView| source_where(object, false);
    if let Json::Array(items) = dump {
        let mut i: usize = 0;
        assert(objects.len() == items@.len());
        assert(objects.take(0) == Seq::<JsonView>::empty());
        assert(node_views(sinks@) =~= objects.take(0).filter_map(to_sink));
        assert(node_views(virtual_sources@) =~= objects.take(0).filter_map(to_virtual));
        assert(node_views(physical_sources@) =~= objects.take(0).filter_map(to_physical));
        while i < items.len()
            invariant
                i <= items@.len(),
                objects.len() == items@.len(),
                *dump == Json::Array(*items),
                objects == objects_of(dump@),
                to_sink == (|object: JsonView| sink_in(object)),
                to_virtual == (|object: JsonView| source_where(object, true)),
                to_physical == (|object: JsonView| source_where(object, false)),
                node_views(sinks@) == objects.take(i as int).filter_map(to_sink),
                node_views(virtual_sources@) == objects.take(i as int).filter_map(to_virtual),
                node_views(physical_sources@) == objects.take(i as int).filter_map(to_physical),
            decreases items@.len() - i,
        {
            assert(objects[i as int] == items@[i as int]@);
            proof {
                objects.lemma_filter_map_take_succ(to_sink, i as int);
                objects.lemma_filter_map_take_succ(to_virtual, i as int);
                objects.lemma_filter_map_take_succ(to_physical, i as int);
            }
            let ghost old_sinks = node_views(sinks@);
            let ghost old_virtual = node_views(virtual_sources@);
            let ghost old_physical = node_views(physical_sources@);
            if let Some((class, node)) = node_of(&items[i]) {
                let ghost view = node_view(node);
                if class.as_str().eq("Audio/Sink") {
                    sinks.push(node);
                    assert(node_views(sinks@) =~= old_sinks.push(view));
                } else if class.as_str().eq("Audio/Source") || class.as_str().eq(
                    "Audio/Source/Virtual",
                ) {
                    if node.is_virtual {
                        virtual_sources.push(node);
                        assert(node_views(virtual_sources@) =~= old_virtual.push(view));
                    } else {
                        physical_sources.push(node);
                        assert(node_views(physical_sources@) =~= old_physical.push(view));
                    }
                }
            }
            i += 1;
        }
        assert(objects.take(i as int) == objects);
    } else {
        assert(node_views(sinks@) =~= objects.filter_map(to_sink));
        assert(node_views(virtual_sources@) =~= objects.filter_map(to_virtual));
        assert(node_views(physical_sources@) =~= objects.filter_map(to_physical));
    }
    AudioInventory {
        physical_sources: sort(physical_sources),
        sinks: sort(sinks),
        virtual_sources: sort(virtual_sources),
    }
}

/// Reads the nodes from the bytes that `pw-dump` printed; the error is the JSON reader's message.
pub fn parse_pw_dump(bytes: &[u8]) -> (inventory: Result<AudioInventory, String>)
    ensures
        match inventory {
            Ok(inventory) => json::parsed_json(bytes@) is Ok && inventory_of(
                json::parsed_json(bytes@)->Ok_0,
                inventory,
            ),
            Err(message) => json::parsed_json(bytes@) == Err::<JsonView, Seq<char>>(message@),
        },
{
    match parse_json(bytes) {
        Ok(dump) => Ok(inventory_from_dump(&dump)),
        Err(message) => Err(message),
    }
}

/// What a command printed.
#[derive(Clone, Debug)]
pub struct CommandOutput {
    pub stdout: Vec<u8>,
    pub stderr: Vec<u8>,
}

/// What running a command gave: its output, or the message of why it failed.
pub type CommandResult = Result<CommandOutput, String>;

/// The text names PipeWire, in upper or lower case.
pub open spec fn names_pipewire(text: Seq<char>) -> bool {
    text::occurs_in("pipewire"@, text::ascii_lower(text))
}

/// Whether the text names PipeWire, in upper or lower case.
pub fn mentions_pipewire(text: &str) -> (mentioned: bool)
    ensures
        mentioned == names_pipewire(text@),
{
    contains(&to_ascii_lowercase(text), "pipewire")
}

/// What is wrong with PipeWire, by what running `pw-dump` gave.
pub open spec fn pipewire_fault(dump: CommandResult) -> Option<Seq<char>> {
    match dump {
        Ok(output) => match json::parsed_json(output.stdout@) {
            Ok(_) => None,
            Err(message) => Some("could not parse pw-dump output: "@ + message),
        },
        Err(message) => Some(message@),
    }
}

/// What is wrong with the Pulse server, by what running `pactl info` gave.
pub open spec fn pulse_fault(info: CommandResult) -> Option<Seq<char>> {
    match info {
        Ok(output) => if names_pipewire(text::lossy_text(output.stdout@)) {
            None
        } else {
            Some("pactl is available, but its server is not PipeWire"@)
        },
        Err(message) => Some(message@),
    }
}

/// What is wrong with mpv, by what asking it for its version gave, and then for its audio outputs.
pub open spec fn mpv_fault(version: CommandResult, outputs: CommandResult) -> Option<Seq<char>> {
    match version {
        Ok(_) => outputs_fault(outputs),
        Err(message) => Some(message@),
    }
}

/// What is wrong with mpv's audio outputs, by what asking for them gave.
pub open spec fn outputs_fault(outputs: CommandResult) -> Option<Seq<char>> {
    match outputs {
        Ok(output) => if names_pipewire(text::lossy_text(output.stdout@ + output.stderr@)) {
            None
        } else {
            Some("mpv does not report PipeWire audio output support"@)
        },
        Err(message) => Some(message@),
    }
}

/// Whether mpv is to be asked for its audio outputs, by what asking for its version gave: only a
/// player that tells its version is.
pub fn asks_for_outputs(version: &CommandResult) -> (asks: bool)
    ensures
        asks == (version is Ok),
{
    match version {
        Ok(_) => true,
        Err(_) => false,
    }
}

/// Judges what the commands printed: `pw-dump`, `pactl info`, and `mpv` asked for its version and
/// then for its audio outputs. Where the version could not be had, that is what is wrong with mpv,
/// and the outputs do not matter.
pub fn diagnose(
    dump: CommandResult,
    info: CommandResult,
    version: CommandResult,
    outputs: CommandResult,
) -> (diagnostics: Diagnostics)
    ensures
        path::optional_text(diagnostics.pipewire_error) == pipewire_fault(dump),
        path::optional_text(diagnostics.pulse_error) == pulse_fault(info),
        path::optional_text(diagnostics.mpv_error) == mpv_fault(version, outputs),
        match dump {
            Ok(output) => match json::parsed_json(output.stdout@) {
                Ok(dump) => inventory_of(dump, diagnostics.inventory),
                Err(_) => diagnostics.inventory.is_empty(),
            },
            Err(_) => diagnostics.inventory.is_empty(),
        },
{
    let (inventory, pipewire_error) = match dump {
        Ok(output) => match parse_pw_dump(output.stdout.as_slice()) {
            Ok(inventory) => (inventory, None),
            Err(message) => (
                AudioInventory::default(),
                Some(join2("could not parse pw-dump output: ", &message)),
            ),
        },
        Err(message) => (AudioInventory::default(), Some(message)),
    };
    let pulse_error = match info {
        Ok(output) => if mentions_pipewire(&decode_lossy(output.stdout.as_slice())) {
            None
        } else {
            Some("pactl is available, but its server is not PipeWire".to_owned())
        },
        Err(message) => Some(message),
    };
    let mpv_error = match version {
        Err(message) => Some(message),
        Ok(_) => judge_outputs(outputs),
    };
    Diagnostics { pipewire_error, pulse_error, mpv_error, inventory }
}

fn judge_outputs(outputs: CommandResult) -> (error: Option<String>)
    ensures
        path::optional_text(error) == outputs_fault(outputs),
{
    match outputs {
        Ok(output) => {
            let mut printed = output.stdout;
            let mut errors = output.stderr;
            printed.append(&mut errors);
            if mentions_pipewire(&decode_lossy(printed.as_slice())) {
                None
            } else {
                Some("mpv does not report PipeWire audio output support".to_owned())
            }
        },
        Err(message) => Some(message),
    }
}

/// A line of the list of modules remaps the sink's monitor to this source.
pub open spec fn remap_line(line: Seq<char>, sink_name: Seq<char>, source_name: Seq<char>) -> bool {
    &&& text::occurs_in("module-remap-source"@, line)
    &&& text::occurs_in("master="@ + (sink_name + ".monitor"@), line)
    &&& text::occurs_in("source_name="@ + source_name, line)
}

/// The source takes its sound from the sink: it is the sink's own monitor, or a module remaps
/// that monitor to it.
pub open spec fn source_follows_sink(
    modules: Seq<char>,
    sink_name: Seq<char>,
    source_name: Seq<char>,
) -> bool {
    ||| source_name == sink_name + ".monitor"@
    ||| exists|i: int|
        0 <= i < text::lines_of(modules).len() && #[trigger] remap_line(
            text::lines_of(modules)[i],
            sink_name,
            source_name,
        )
}

/// Whether the source takes its sound from the sink, by the list of loaded modules.
pub fn source_matches_modules(modules: &str, sink_name: &str, source_name: &str) -> (matches: bool)
    ensures
        matches == source_follows_sink(modules@, sink_name@, source_name@),
{
    let direct_monitor = join2(sink_name, ".monitor");
    if source_name.eq(direct_monitor.as_str()) {
        return true;
    }
    let master = join2("master=", &direct_monitor);
    let source = join2("source_name=", source_name);
    let lines = lines(modules);
    assert(text::views(lines@).len() == lines@.len());
    let mut i: usize = 0;
    while i < lines.len()
        invariant
            i <= lines@.len(),
            text::views(lines@) == text::lines_of(modules@),
            text::views(lines@).len() == lines@.len(),
            master@ == "master="@ + (sink_name@ + ".monitor"@),
            source@ == "source_name="@ + source_name@,
            forall|k: int|
                0 <= k < i ==> !#[trigger] remap_line(
                    text::lines_of(modules@)[k],
                    sink_name@,
                    source_name@,
                ),
        decreases lines@.len() - i,
    {
        assert(text::lines_of(modules@)[i as int] == lines@[i as int]@);
        let found = contains(&lines[i], "module-remap-source") && contains(&lines[i], &master)
            && contains(&lines[i], &source);
        assert(found == remap_line(text::lines_of(modules@)[i as int], sink_name@, source_name@));
        if found {
            return true;
        }
        i += 1;
    }
    false
}

/// The virtual sources that take their sound from the sink.
pub open spec fn sources_following(
    sources: Seq<AudioNode>,
    modules: Seq<char>,
    sink_name: Seq<char>,
) -> Seq<AudioNode> {
    sources.filter(|source: AudioNode| source_follows_sink(modules, sink_name, source.name@))
}

/// The virtual sources that take their sound from the sink, by what `pactl list modules short`
/// gave.
pub fn sources_for_sink(
    diagnostics: &Diagnostics,
    sink_name: &str,
    modules: &CommandResult,
) -> (sources: Result<Vec<AudioNode>, Failure>)
    ensures
        match *modules {
            Ok(output) => sources is Ok && sources->Ok_0@ == sources_following(
                diagnostics.inventory.virtual_sources@,
                text::lossy_text(output.stdout@),
                sink_name@,
            ),
            Err(message) => sources is Err && failure::failure_is(
                sources->Err_0,
                FailureKind::Other,
                message@,
            ),
        },
{
    let listing = match modules {
        Ok(output) => decode_lossy(output.stdout.as_slice()),
        Err(message) => return Err(Failure::other(message)),
    };
    let all = &diagnostics.inventory.virtual_sources;
    let ghost follows = |source: AudioNode|
        source_follows_sink(listing@, sink_name@, source.name@);
    let mut sources: Vec<AudioNode> = Vec::new();
    let mut i: usize = 0;
    assert(all@.take(0) == Seq::<AudioNode>::empty());
    proof {
        reveal(Seq::filter);
    }
    while i < all.len()
        invariant
            i <= all@.len(),
            follows == (|source: AudioNode|
                source_follows_sink(listing@, sink_name@, source.name@)),
            sources@ == all@.take(i as int).filter(follows),
        decreases all@.len() - i,
    {
        assert(all@.take(i + 1) == all@.take(i as int).push(all@[i as int]));
        proof {
            all@.take(i as int).lemma_filter_push(all@[i as int], follows);
        }
        if source_matches_modules(&listing, sink_name, &all[i].name) {
            sources.push(all[i].clone());
        }
        i += 1;
    }
    assert(all@.take(i as int) == all@);
    Ok(sources)
}

/// Whether the named source is among the virtual sources that take their sound from the sink.
pub fn source_matches_sink(
    diagnostics: &Diagnostics,
    sink_name: &str,
    source_name: &str,
    modules: &CommandResult,
) -> (matches: Result<bool, Failure>)
    ensures
        match *modules {
            Ok(output) => matches == Ok::<bool, Failure>(
                has_node(
                    sources_following(
                        diagnostics.inventory.virtual_sources@,
                        text::lossy_text(output.stdout@),
                        sink_name@,
                    ),
                    source_name@,
                ),
            ),
            Err(message) => matches is Err && failure::failure_is(
                matches->Err_0,
                FailureKind::Other,
                message@,
            ),
        },
{
    match sources_for_sink(diagnostics, sink_name, modules) {
        Ok(sources) => Ok(contains_node(&sources, source_name)),
        Err(failure) => Err(failure),
    }
}

/// A line of the list of modules loops the source back into the managed sink.
pub open spec fn loopback_line(line: Seq<char>, source_name: Seq<char>) -> bool {
    &&& text::occurs_in("module-loopback"@, line)
    &&& text::occurs_in("source="@ + source_name, line)
    &&& text::occurs_in("sink="@ + MANAGED_SINK_NAME@, line)
}

/// Some module loops the source back into the managed sink.
pub open spec fn loopback_listed(modules: Seq<char>, source_name: Seq<char>) -> bool {
    exists|i: int|
        0 <= i < text::lines_of(modules).len() && #[trigger] loopback_line(
            text::lines_of(modules)[i],
            source_name,
        )
}

/// Whether some module loops the source back into the managed sink.
pub fn loopback_loaded(modules: &str, source_name: &str) -> (loaded: bool)
    ensures
        loaded == loopback_listed(modules@, source_name@),
{
    let source = join2("source=", source_name);
    let sink = join2("sink=", MANAGED_SINK_NAME);
    let lines = lines(modules);
    assert(text::views(lines@).len() == lines@.len());
    let mut i: usize = 0;
    while i < lines.len()
        invariant
            i <= lines@.len(),
            text::views(lines@) == text::lines_of(modules@),
            text::views(lines@).len() == lines@.len(),
            source@ == "source="@ + source_name@,
            sink@ == "sink="@ + MANAGED_SINK_NAME@,
            forall|k: int|
                0 <= k < i ==> !#[trigger] loopback_line(
                    text::lines_of(modules@)[k],
                    source_name@,
                ),
        decreases lines@.len() - i,
    {
        assert(text::lines_of(modules@)[i as int] == lines@[i as int]@);
        let found = contains(&lines[i], "module-loopback") && contains(&lines[i], &source)
            && contains(&lines[i], &sink);
        assert(found == loopback_line(text::lines_of(modules@)[i as int], source_name@));
        if found {
            return true;
        }
        i += 1;
    }
    false
}

/// The managed sink and its microphone are both there.
pub open spec fn managed_nodes_listed(diagnostics: Diagnostics) -> bool {
    &&& has_node(diagnostics.inventory.virtual_sources@, MANAGED_SOURCE_NAME@)
    &&& has_node(diagnostics.inventory.sinks@, MANAGED_SINK_NAME@)
}

/// Whether the managed sink and its microphone are both there. Only where they are does the list
/// of modules matter.
pub fn managed_nodes_present(diagnostics: &Diagnostics) -> (present: bool)
    ensures
        present == managed_nodes_listed(*diagnostics),
{
    contains_node(&diagnostics.inventory.virtual_sources, MANAGED_SOURCE_NAME)
        && diagnostics.has_sink(MANAGED_SINK_NAME)
}

/// The managed mix is complete: its nodes are there and the source is looped back into it.
pub open spec fn mix_is_ready(
    source_name: Seq<char>,
    diagnostics: Diagnostics,
    modules: CommandResult,
) -> bool {
    managed_nodes_listed(diagnostics) && modules is Ok && loopback_listed(
        text::lossy_text(modules->Ok_0.stdout@),
        source_name,
    )
}

/// Whether the managed mix is complete, by what `pactl list modules short` gave. Without its
/// nodes it is not, whatever the list says.
pub fn managed_mix_ready(
    source_name: &str,
    diagnostics: &Diagnostics,
    modules: &CommandResult,
) -> (ready: Result<bool, Failure>)
    ensures
        match ready {
            Ok(ready) => ready == mix_is_ready(source_name@, *diagnostics, *modules) && (
            managed_nodes_listed(*diagnostics) ==> modules is Ok),
            Err(failure) => managed_nodes_listed(*diagnostics) && modules is Err
                && failure::failure_is(failure, FailureKind::Other, modules->Err_0@),
        },
{
    if !managed_nodes_present(diagnostics) {
        return Ok(false);
    }
    match modules {
        Ok(output) => Ok(loopback_loaded(&decode_lossy(output.stdout.as_slice()), source_name)),
        Err(message) => Err(Failure::other(message)),
    }
}

/// The name is not empty and holds only ASCII letters, digits, `_`, `.`, `:` and `-`.
pub open spec fn valid_source_name(name: Seq<char>) -> bool {
    name.len() > 0 && forall|i: int| 0 <= i < name.len() ==> name_character(#[trigger] name[i])
}

/// A character that a source name may hold.
pub open spec fn name_character(c: char) -> bool {
    ||| 'a' <= c && c <= 'z'
    ||| 'A' <= c && c <= 'Z'
    ||| '0' <= c && c <= '9'
    ||| c == '_' || c == '.' || c == ':' || c == '-'
}

/// Accepts a source name only if it can stand in the managed configuration as it is.
pub fn validate_source_name(source_name: &str) -> (valid: Result<(), Failure>)
    ensures
        valid is Ok <==> valid_source_name(source_name@),
        valid matches Err(failure) ==> failure::failure_is(
            failure,
            FailureKind::InvalidInput,
            "source name must match [A-Za-z0-9_.:-]+"@,
        ),
{
    let chars = text::characters(source_name);
    let mut good = chars.len() > 0;
    let mut i: usize = 0;
    while i < chars.len()
        invariant
            i <= chars@.len(),
            good == (chars@.len() > 0 && forall|k: int|
                0 <= k < i ==> name_character(#[trigger] chars@[k])),
        decreases chars@.len() - i,
    {
        let c = chars[i];
        if !(('a' <= c && c <= 'z') || ('A' <= c && c <= 'Z') || ('0' <= c && c <= '9') || c == '_'
            || c == '.' || c == ':' || c == '-') {
            good = false;
        }
        i += 1;
    }
    if good {
        Ok(())
    } else {
        Err(Failure::new(FailureKind::InvalidInput, "source name must match [A-Za-z0-9_.:-]+"))
    }
}

/// The managed configuration: the marker, then the commands that load the sink and loop the
/// source back into it.
pub open spec fn config_text(source_name: Seq<char>) -> Seq<char> {
    MANAGED_MARKER@
        + "\npulse.cmd = [\n{ cmd = \"load-module\" args = \"module-null-sink sink_name="@
        + MANAGED_SINK_NAME@
        + " sink_properties=device.description=Soundboard_TUI_Mix\" flags = [ ] }\n{ cmd = \"load-module\" args = \"module-loopback source="@
        + source_name + " sink="@ + MANAGED_SINK_NAME@ + "\" flags = [ ] }\n]\n"@
}

/// Writes the managed configuration for a source.
pub fn render_config(source_name: &str) -> (config: String)
    ensures
        config@ == config_text(source_name@),
{
    let sink = join3(
        MANAGED_MARKER,
        "\npulse.cmd = [\n{ cmd = \"load-module\" args = \"module-null-sink sink_name=",
        MANAGED_SINK_NAME,
    );
    let loopback = join3(
        &sink,
        " sink_properties=device.description=Soundboard_TUI_Mix\" flags = [ ] }\n{ cmd = \"load-module\" args = \"module-loopback source=",
        source_name,
    );
    join4(&loopback, " sink=", MANAGED_SINK_NAME, "\" flags = [ ] }\n]\n")
}

/// The contents begin with the marker on a line of its own.
pub open spec fn marked(contents: Seq<char>) -> bool {
    (MANAGED_MARKER@ + "\n"@).is_prefix_of(contents) || (MANAGED_MARKER@
        + "\r\n"@).is_prefix_of(contents)
}

/// Whether a configuration file begins with the marker on a line of its own.
pub fn has_managed_marker(contents: &str) -> (has: bool)
    ensures
        has == marked(contents@),
{
    starts_with(contents, &join2(MANAGED_MARKER, "\n")) || starts_with(
        contents,
        &join2(MANAGED_MARKER, "\r\n"),
    )
}

/// What the program writes it may replace and remove: every configuration that it renders bears
/// the marker.
pub proof fn rendered_config_is_marked(source_name: Seq<char>)
    ensures
        marked(config_text(source_name)),
{
    reveal_strlit("\n");
    reveal_strlit(
        "\npulse.cmd = [\n{ cmd = \"load-module\" args = \"module-null-sink sink_name=",
    );
    assert((MANAGED_MARKER@ + "\n"@).is_prefix_of(config_text(source_name)));
}

/// Lets the configuration file be written only if there is none or the program wrote it.
pub fn protect_unmanaged_file(path: &PathBuf, contents: &Result<String, Failure>) -> (allowed:
    Result<(), Failure>)
    ensures
        match *contents {
            Ok(contents) => if marked(contents@) {
                allowed is Ok
            } else {
                allowed is Err && failure::failure_is(
                    allowed->Err_0,
                    FailureKind::AlreadyExists,
                    "refusing to overwrite unmanaged PipeWire config: "@ + path::path_text(*path),
                )
            },
            Err(failure) => if failure.kind == FailureKind::NotFound {
                allowed is Ok
            } else {
                allowed is Err && failure::failure_is(
                    allowed->Err_0,
                    failure.kind,
                    failure.message@,
                )
            },
        },
{
    match contents {
        Ok(contents) => if has_managed_marker(contents) {
            Ok(())
        } else {
            Err(
                Failure::new(
                    FailureKind::AlreadyExists,
                    &join2("refusing to overwrite unmanaged PipeWire config: ", &display(path)),
                ),
            )
        },
        Err(failure) => if failure.kind == FailureKind::NotFound {
            Ok(())
        } else {
            Err(Failure::new(failure.kind, &failure.message))
        },
    }
}

/// Whether the managed configuration is in place, by what reading its file gave.
pub fn managed_mix_installed(contents: &Result<String, Failure>) -> (installed: Result<
    bool,
    Failure,
>)
    ensures
        match *contents {
            Ok(contents) => installed == Ok::<bool, Failure>(marked(contents@)),
            Err(failure) => if failure.kind == FailureKind::NotFound {
                installed == Ok::<bool, Failure>(false)
            } else {
                installed is Err && failure::failure_is(
                    installed->Err_0,
                    failure.kind,
                    failure.message@,
                )
            },
        },
{
    match contents {
        Ok(contents) => Ok(has_managed_marker(contents)),
        Err(failure) => if failure.kind == FailureKind::NotFound {
            Ok(false)
        } else {
            Err(Failure::new(failure.kind, &failure.message))
        },
    }
}

/// The bytes of a path that is set and holds something.
pub open spec fn set_bytes(path: Option<PathBuf>) -> Option<Seq<u8>> {
    match path {
        Some(path) => if path::path_bytes(path).len() == 0 {
            None
        } else {
            Some(path::path_bytes(path))
        },
        None => None,
    }
}

/// The configuration directory: as configured, else `.config` in the home directory.
pub open spec fn config_home_bytes(config_home: Option<PathBuf>, home: Option<PathBuf>) -> Option<
    Seq<u8>,
> {
    match set_bytes(config_home) {
        Some(base) => Some(base),
        None => match set_bytes(home) {
            Some(home) => Some(path::child_in(home, ".config"@)),
            None => None,
        },
    }
}

/// The managed configuration file in a configuration directory.
pub open spec fn config_path_in(base: Seq<u8>) -> Seq<u8> {
    path::child_in(
        path::child_in(path::child_in(base, "pipewire"@), "pipewire-pulse.conf.d"@),
        CONFIG_FILE_NAME@,
    )
}

/// The managed configuration file has a directory: `pipewire/pipewire-pulse.conf.d` in the
/// configuration directory, whatever that is.
pub proof fn managed_config_has_directory(base: Seq<u8>)
    ensures
        path::parent_components(config_path_in(base)) == Some(
            path::components_in(base).push(vstd::utf8::encode_utf8("pipewire"@)).push(
                vstd::utf8::encode_utf8("pipewire-pulse.conf.d"@),
            ),
        ),
{
    reveal_strlit("pipewire");
    reveal_strlit("pipewire-pulse.conf.d");
    reveal_strlit("90-soundboard-tui.conf");
    path::lemma_text_is_piece("pipewire"@);
    path::lemma_text_is_piece("pipewire-pulse.conf.d"@);
    path::lemma_text_is_piece(CONFIG_FILE_NAME@);
    let first = path::child_in(base, "pipewire"@);
    let second = path::child_in(first, "pipewire-pulse.conf.d"@);
    path::joined_piece_is_last(base, vstd::utf8::encode_utf8("pipewire"@));
    path::joined_piece_is_last(first, vstd::utf8::encode_utf8("pipewire-pulse.conf.d"@));
    path::joined_piece_is_last(second, vstd::utf8::encode_utf8(CONFIG_FILE_NAME@));
}

/// The managed configuration file, by the values of `XDG_CONFIG_HOME` and `HOME`.
pub fn managed_config_path(config_home: Option<PathBuf>, home: Option<PathBuf>) -> (file: Result<
    PathBuf,
    Failure,
>)
    ensures
        match config_home_bytes(config_home, home) {
            Some(base) => file is Ok && path::path_bytes(file->Ok_0) == config_path_in(base),
            None => file is Err && failure::failure_is(
                file->Err_0,
                FailureKind::NotFound,
                "neither XDG_CONFIG_HOME nor HOME is set"@,
            ),
        },
{
    let base = match config_home {
        Some(path) if !path::is_empty_path(&path) => path,
        _ => match home {
            Some(home) if !path::is_empty_path(&home) => child(&home, ".config"),
            _ => return Err(
                Failure::new(FailureKind::NotFound, "neither XDG_CONFIG_HOME nor HOME is set"),
            ),
        },
    };
    Ok(child(&child(&child(&base, "pipewire"), "pipewire-pulse.conf.d"), CONFIG_FILE_NAME))
}

/// The object of a dump has these properties, and under them this class and this name.
pub open spec fn is_node(
    object: JsonView,
    props: JsonView,
    class: Seq<char>,
    name: Seq<char>,
) -> bool {
    &&& object.field("info"@) is Some
    &&& object.field("info"@)->Some_0.field("props"@) == Some(props)
    &&& props is Object
    &&& props.text_field("media.class"@) == Some(class)
    &&& props.text_field("node.name"@) == Some(name)
}

/// The list holds a node with this name and this description, virtual as told.
pub open spec fn offers(
    nodes: Seq<AudioNode>,
    name: Seq<char>,
    description: Seq<char>,
    is_virtual: bool,
) -> bool {
    exists|k: int|
        0 <= k < nodes.len() && (#[trigger] nodes[k]).name@ == name && nodes[k].description@
            == description && nodes[k].is_virtual == is_virtual
}

proof fn lemma_listed(nodes: Seq<AudioNode>, found: Seq<NodeView>)
    requires
        listed(nodes, found),
    ensures
        nodes.len() == found.len(),
        forall|view: NodeView| #[trigger]
            found.contains(view) ==> offers(nodes, view.name, view.description, view.is_virtual),
        forall|k: int| 0 <= k < nodes.len() ==> found.contains(node_view(#[trigger] nodes[k])),
        forall|i: int, j: int|
            0 <= i < j < nodes.len() ==> order::not_after(
                vstd::utf8::encode_utf8((#[trigger] nodes[i]).name@),
                vstd::utf8::encode_utf8((#[trigger] nodes[j]).name@),
            ),
{
    let unsorted = choose|unsorted: Seq<AudioNode>|
        node_views(unsorted) == found && #[trigger] order::stably_sorted(unsorted, nodes);
    order::lemma_sorted_items(unsorted, nodes);
    assert forall|view: NodeView| #[trigger] found.contains(view) implies offers(
        nodes,
        view.name,
        view.description,
        view.is_virtual,
    ) by {
        let j = choose|j: int| 0 <= j < found.len() && found[j] == view;
        assert(found[j] == node_view(unsorted[j]));
        assert(unsorted.contains(unsorted[j]));
        assert(nodes.contains(unsorted[j]));
        let k = choose|k: int| 0 <= k < nodes.len() && nodes[k] == unsorted[j];
        assert(nodes[k].name@ == view.name);
    }
    assert forall|k: int| 0 <= k < nodes.len() implies found.contains(
        node_view(#[trigger] nodes[k]),
    ) by {
        assert(nodes.contains(nodes[k]));
        assert(unsorted.contains(nodes[k]));
        let j = choose|j: int| 0 <= j < unsorted.len() && unsorted[j] == nodes[k];
        assert(found[j] == node_view(nodes[k]));
    }
    assert forall|i: int, j: int| 0 <= i < j < nodes.len() implies order::not_after(
        vstd::utf8::encode_utf8((#[trigger] nodes[i]).name@),
        vstd::utf8::encode_utf8((#[trigger] nodes[j]).name@),
    ) by {
        assert(order::not_after(nodes[i].key(), nodes[j].key()));
    }
}

proof fn lemma_source_listed(objects: Seq<JsonView>, at: int, wanted: bool)
    requires
        0 <= at < objects.len(),
        source_where(objects[at], wanted) is Some,
    ensures
        objects.filter_map(|object: JsonView| source_where(object, wanted)).contains(
            source_where(objects[at], wanted)->Some_0,
        ),
{
    order::lemma_filter_map_keeps(objects, |object: JsonView| source_where(object, wanted), at);
}

/// Every source of a dump is offered: as a virtual microphone where it bears any of the marks of one
/// (its class, the monitor's name, the property switched on, a null device's factory, the monitor's
/// volumes), and as a physical microphone where it bears none.
pub proof fn each_source_is_offered_as_what_it_is(
    bytes: &[u8],
    objects: Seq<JsonView>,
    at: int,
    props: JsonView,
    class: Seq<char>,
    name: Seq<char>,
    description: Seq<char>,
    inventory: AudioInventory,
)
    requires
        json::parsed_json(bytes@) == Ok::<JsonView, Seq<char>>(JsonView::Array(objects)),
        call_ensures(parse_pw_dump, (bytes,), Ok(inventory)),
        0 <= at < objects.len(),
        is_node(objects[at], props, class, name),
        class == "Audio/Source"@ || class == "Audio/Source/Virtual"@,
        description == match (
            props.text_field("node.description"@),
            props.text_field("node.nick"@),
        ) {
            (Some(own), _) => own,
            (None, Some(nick)) => nick,
            (None, None) => name,
        },
    ensures
        class == "Audio/Source/Virtual"@ ==> offers(
            inventory.virtual_sources@,
            name,
            description,
            true,
        ),
        (exists|rest: Seq<char>| name == #[trigger] (rest + ".monitor"@)) ==> offers(
            inventory.virtual_sources@,
            name,
            description,
            true,
        ),
        props.field("node.virtual"@) == Some(JsonView::Bool(true)) ==> offers(
            inventory.virtual_sources@,
            name,
            description,
            true,
        ),
        props.text_field("node.virtual"@) == Some("true"@) || props.text_field("node.virtual"@)
            == Some("1"@) || props.text_field("node.virtual"@) == Some("yes"@) ==> offers(
            inventory.virtual_sources@,
            name,
            description,
            true,
        ),
        (props.field("node.virtual"@) matches Some(JsonView::Number(Some(number))) && number > 0)
            ==> offers(inventory.virtual_sources@, name, description, true),
        (props.text_field("factory.name"@) matches Some(factory) && exists|
            before: Seq<char>,
            after: Seq<char>,
        | factory == #[trigger] (before + "null-audio"@ + after)) ==> offers(
            inventory.virtual_sources@,
            name,
            description,
            true,
        ),
        props.field("monitor.channel-volumes"@) is Some ==> offers(
            inventory.virtual_sources@,
            name,
            description,
            true,
        ),
        class == "Audio/Source"@ && !(exists|rest: Seq<char>|
            name == #[trigger] (rest + ".monitor"@)) && !(props.field("node.virtual"@) == Some(
            JsonView::Bool(true),
        ) || props.text_field("node.virtual"@) == Some("true"@) || props.text_field(
            "node.virtual"@,
        ) == Some("1"@) || props.text_field("node.virtual"@) == Some("yes"@)) && !(props.field(
            "node.virtual"@,
        ) matches Some(JsonView::Number(Some(number))) && number > 0) && !(props.text_field(
            "factory.name"@,
        ) matches Some(factory) && exists|before: Seq<char>, after: Seq<char>|
            factory == #[trigger] (before + "null-audio"@ + after)) && props.field(
            "monitor.channel-volumes"@,
        ) is None ==> offers(
            inventory.physical_sources@,
            name,
            description,
            false,
        ),
{
    let virtual_mark = virtual_source(class, name, props);
    reveal_strlit("Audio/Sink");
    reveal_strlit("Audio/Source");
    reveal_strlit("Audio/Source/Virtual");
    assert("Audio/Sink"@.len() != "Audio/Source"@.len());
    assert("Audio/Source"@.len() != "Audio/Source/Virtual"@.len());
    if let Some(factory) = props.text_field("factory.name"@) {
        text::occurring_is_standing_inside("null-audio"@, factory);
    }
    if exists|rest: Seq<char>| name == #[trigger] (rest + ".monitor"@) {
        let rest = choose|rest: Seq<char>| name == #[trigger] (rest + ".monitor"@);
        assert(name.subrange(rest.len() as int, name.len() as int) =~= ".monitor"@);
        assert(".monitor"@.is_suffix_of(name));
    }
    if ".monitor"@.is_suffix_of(name) {
        let rest = name.take(name.len() - ".monitor"@.len());
        assert(name =~= rest + ".monitor"@);
    }
    assert(source_where(objects[at], virtual_mark) == Some(
        NodeView { name, description, is_virtual: virtual_mark },
    ));
    lemma_source_listed(objects, at, virtual_mark);
    lemma_listed(
        inventory.virtual_sources@,
        objects.filter_map(|object: JsonView| source_where(object, true)),
    );
    lemma_listed(
        inventory.physical_sources@,
        objects.filter_map(|object: JsonView| source_where(object, false)),
    );
}

/// What is offered was found: a physical microphone is a source without any mark of a virtual one, a
/// virtual microphone is a source, and a sink is a sink. Each list stands in the order of the names,
/// and no object is listed twice.
pub proof fn only_what_was_found_is_offered(
    bytes: &[u8],
    objects: Seq<JsonView>,
    inventory: AudioInventory,
    at: int,
)
    requires
        json::parsed_json(bytes@) == Ok::<JsonView, Seq<char>>(JsonView::Array(objects)),
        call_ensures(parse_pw_dump, (bytes,), Ok(inventory)),
    ensures
        0 <= at < inventory.physical_sources@.len() ==> {
            let node = inventory.physical_sources@[at];
            &&& !node.is_virtual
            &&& exists|i: int, props: JsonView|
                0 <= i < objects.len() && #[trigger] is_node(
                    objects[i],
                    props,
                    "Audio/Source"@,
                    node.name@,
                ) && props.field("node.virtual"@) != Some(JsonView::Bool(true))
                    && props.field("monitor.channel-volumes"@) is None
            &&& !(exists|rest: Seq<char>| node.name@ == #[trigger] (rest + ".monitor"@))
        },
        0 <= at < inventory.virtual_sources@.len() ==> {
            let node = inventory.virtual_sources@[at];
            &&& node.is_virtual
            &&& exists|i: int, props: JsonView, class: Seq<char>|
                0 <= i < objects.len() && (class == "Audio/Source"@ || class
                    == "Audio/Source/Virtual"@) && #[trigger] is_node(
                    objects[i],
                    props,
                    class,
                    node.name@,
                )
        },
        0 <= at < inventory.sinks@.len() ==> exists|i: int, props: JsonView|
            0 <= i < objects.len() && #[trigger] is_node(
                objects[i],
                props,
                "Audio/Sink"@,
                inventory.sinks@[at].name@,
            ),
        forall|i: int, j: int|
            0 <= i < j < inventory.sinks@.len() ==> order::not_after(
                vstd::utf8::encode_utf8((#[trigger] inventory.sinks@[i]).name@),
                vstd::utf8::encode_utf8((#[trigger] inventory.sinks@[j]).name@),
            ),
        forall|i: int, j: int|
            0 <= i < j < inventory.virtual_sources@.len() ==> order::not_after(
                vstd::utf8::encode_utf8((#[trigger] inventory.virtual_sources@[i]).name@),
                vstd::utf8::encode_utf8((#[trigger] inventory.virtual_sources@[j]).name@),
            ),
        forall|i: int, j: int|
            0 <= i < j < inventory.physical_sources@.len() ==> order::not_after(
                vstd::utf8::encode_utf8((#[trigger] inventory.physical_sources@[i]).name@),
                vstd::utf8::encode_utf8((#[trigger] inventory.physical_sources@[j]).name@),
            ),
        inventory.sinks@.len() + inventory.virtual_sources@.len()
            + inventory.physical_sources@.len() <= objects.len(),
{
    let to_sink = |object: JsonView| sink_in(object);
    let to_virtual = |object: JsonView| source_where(object, true);
    let to_physical = |object: JsonView| source_where(object, false);
    lemma_listed(inventory.sinks@, objects.filter_map(to_sink));
    lemma_listed(inventory.virtual_sources@, objects.filter_map(to_virtual));
    lemma_listed(inventory.physical_sources@, objects.filter_map(to_physical));
    lemma_lists_are_apart(objects);
    if 0 <= at < inventory.physical_sources@.len() {
        let node = inventory.physical_sources@[at];
        objects.lemma_filter_map_contains(to_physical, node_view(node));
        let object = choose|object: JsonView| #[trigger]
            objects.contains(object) && to_physical(object) == Some(node_view(node));
        let i = choose|i: int| 0 <= i < objects.len() && objects[i] == object;
        let props = properties(object)->Some_0;
        let class = props.text_field("media.class"@)->Some_0;
        assert(is_node(objects[i], props, class, node.name@));
        if exists|rest: Seq<char>| node.name@ == #[trigger] (rest + ".monitor"@) {
            let rest = choose|rest: Seq<char>| node.name@ == #[trigger] (rest + ".monitor"@);
            assert(node.name@.subrange(rest.len() as int, node.name@.len() as int)
                =~= ".monitor"@);
            assert(".monitor"@.is_suffix_of(node.name@));
        }
    }
    if 0 <= at < inventory.virtual_sources@.len() {
        let node = inventory.virtual_sources@[at];
        objects.lemma_filter_map_contains(to_virtual, node_view(node));
        let object = choose|object: JsonView| #[trigger]
            objects.contains(object) && to_virtual(object) == Some(node_view(node));
        let i = choose|i: int| 0 <= i < objects.len() && objects[i] == object;
        let props = properties(object)->Some_0;
        let class = props.text_field("media.class"@)->Some_0;
        assert(is_node(objects[i], props, class, node.name@));
    }
    if 0 <= at < inventory.sinks@.len() {
        let node = inventory.sinks@[at];
        objects.lemma_filter_map_contains(to_sink, node_view(node));
        let object = choose|object: JsonView| #[trigger]
            objects.contains(object) && to_sink(object) == Some(node_view(node));
        let i = choose|i: int| 0 <= i < objects.len() && objects[i] == object;
        let props = properties(object)->Some_0;
        assert(is_node(objects[i], props, "Audio/Sink"@, node.name@));
    }
}

proof fn lemma_lists_are_apart(objects: Seq<JsonView>)
    ensures
        objects.filter_map(|object: JsonView| sink_in(object)).len() + objects.filter_map(
            |object: JsonView| source_where(object, true),
        ).len() + objects.filter_map(|object: JsonView| source_where(object, false)).len()
            <= objects.len(),
    decreases objects.len(),
{
    if objects.len() > 0 {
        lemma_lists_are_apart(objects.drop_last());
    }
}

/// Every sink of a dump is offered: as virtual where it bears a mark of a virtual one or belongs to
/// no device, and as physical where it belongs to a device and bears no mark.
pub proof fn each_sink_is_offered_as_what_it_is(
    bytes: &[u8],
    objects: Seq<JsonView>,
    at: int,
    props: JsonView,
    name: Seq<char>,
    description: Seq<char>,
    inventory: AudioInventory,
)
    requires
        json::parsed_json(bytes@) == Ok::<JsonView, Seq<char>>(JsonView::Array(objects)),
        call_ensures(parse_pw_dump, (bytes,), Ok(inventory)),
        0 <= at < objects.len(),
        is_node(objects[at], props, "Audio/Sink"@, name),
        description == match (
            props.text_field("node.description"@),
            props.text_field("node.nick"@),
        ) {
            (Some(own), _) => own,
            (None, Some(nick)) => nick,
            (None, None) => name,
        },
    ensures
        props.field("node.virtual"@) == Some(JsonView::Bool(true)) ==> offers(
            inventory.sinks@,
            name,
            description,
            true,
        ),
        (props.text_field("factory.name"@) matches Some(factory) && exists|
            before: Seq<char>,
            after: Seq<char>,
        | factory == #[trigger] (before + "null-audio"@ + after)) ==> offers(
            inventory.sinks@,
            name,
            description,
            true,
        ),
        props.field("device.id"@) is None && props.field("device.api"@) is None ==> offers(
            inventory.sinks@,
            name,
            description,
            true,
        ),
        (exists|rest: Seq<char>| name == #[trigger] (rest + ".monitor"@)) || props.field(
            "monitor.channel-volumes"@,
        ) is Some || props.text_field("node.virtual"@) == Some("true"@) || props.text_field(
            "node.virtual"@,
        ) == Some("1"@) || props.text_field("node.virtual"@) == Some("yes"@) ==> offers(
            inventory.sinks@,
            name,
            description,
            true,
        ),
        (props.field("node.virtual"@) matches Some(JsonView::Number(Some(number))) && number > 0)
            ==> offers(inventory.sinks@, name, description, true),
        (props.field("device.id"@) is Some || props.field("device.api"@) is Some) && !(exists|
            rest: Seq<char>,
        | name == #[trigger] (rest + ".monitor"@)) && !(props.field("node.virtual"@) == Some(
            JsonView::Bool(true),
        ) || props.text_field("node.virtual"@) == Some("true"@) || props.text_field(
            "node.virtual"@,
        ) == Some("1"@) || props.text_field("node.virtual"@) == Some("yes"@)) && !(props.field(
            "node.virtual"@,
        ) matches Some(JsonView::Number(Some(number))) && number > 0) && !(props.text_field(
            "factory.name"@,
        ) matches Some(factory) && exists|before: Seq<char>, after: Seq<char>|
            factory == #[trigger] (before + "null-audio"@ + after)) && props.field(
            "monitor.channel-volumes"@,
        ) is None ==> offers(
            inventory.sinks@,
            name,
            description,
            false,
        ),
{
    reveal_strlit("Audio/Sink");
    reveal_strlit("Audio/Source/Virtual");
    assert("Audio/Sink"@.len() != "Audio/Source/Virtual"@.len());
    if let Some(factory) = props.text_field("factory.name"@) {
        text::occurring_is_standing_inside("null-audio"@, factory);
    }
    if exists|rest: Seq<char>| name == #[trigger] (rest + ".monitor"@) {
        let rest = choose|rest: Seq<char>| name == #[trigger] (rest + ".monitor"@);
        assert(name.subrange(rest.len() as int, name.len() as int) =~= ".monitor"@);
        assert(".monitor"@.is_suffix_of(name));
    }
    if ".monitor"@.is_suffix_of(name) {
        let rest = name.take(name.len() - ".monitor"@.len());
        assert(name =~= rest + ".monitor"@);
    }
    let to_sink = |object: JsonView| sink_in(object);
    order::lemma_filter_map_keeps(objects, to_sink, at);
    lemma_listed(inventory.sinks@, objects.filter_map(to_sink));
}

/// A dump that cannot be read is an error with the reader's message, and one that is no list has no
/// nodes.
pub proof fn a_dump_is_read_or_refused(bytes: &[u8], result: Result<AudioInventory, String>)
    requires
        call_ensures(parse_pw_dump, (bytes,), result),
    ensures
        result is Ok <==> json::parsed_json(bytes@) is Ok,
        json::parsed_json(bytes@) matches Err(message) ==> result->Err_0@ == message,
        json::parsed_json(bytes@) matches Ok(dump) && !(dump is Array) ==> {
            &&& result->Ok_0.sinks@.len() == 0
            &&& result->Ok_0.virtual_sources@.len() == 0
            &&& result->Ok_0.physical_sources@.len() == 0
        },
{
    if let Ok(inventory) = result {
        let objects = objects_of(json::parsed_json(bytes@)->Ok_0);
        let to_sink = |object: JsonView| sink_in(object);
        let to_virtual = |object: JsonView| source_where(object, true);
        let to_physical = |object: JsonView| source_where(object, false);
        lemma_listed(inventory.sinks@, objects.filter_map(to_sink));
        lemma_listed(inventory.virtual_sources@, objects.filter_map(to_virtual));
        lemma_listed(inventory.physical_sources@, objects.filter_map(to_physical));
    }
}

/// PipeWire is named wherever its name stands in a text, in whatever case.
pub proof fn pipewire_is_named_in_any_case(
    text: &str,
    lower: String,
    mentioned: bool,
)
    requires
        call_ensures(mentions_pipewire, (text,), mentioned),
        call_ensures(to_ascii_lowercase, (text,), lower),
    ensures
        mentioned <==> exists|before: Seq<char>, after: Seq<char>|
            lower@ == #[trigger] (before + "pipewire"@ + after),
{
    text::occurring_is_standing_inside("pipewire"@, lower@);
}

/// The diagnostics tell of each command what is wrong with it: the message of one that failed, that
/// its output cannot be read, or that it does not name PipeWire; and nothing where it is in order.
pub proof fn diagnostics_tell_what_is_wrong(
    dump: CommandResult,
    info: CommandResult,
    version: CommandResult,
    outputs: CommandResult,
    diagnostics: Diagnostics,
)
    requires
        call_ensures(diagnose, (dump, info, version, outputs), diagnostics),
    ensures
        dump matches Err(message) ==> diagnostics.pipewire_error matches Some(error) && error@
            == message@,
        dump matches Ok(output) ==> (diagnostics.pipewire_error is None <==> json::parsed_json(
            output.stdout@,
        ) is Ok),
        (dump matches Ok(output) && json::parsed_json(output.stdout@) is Err) ==> {
            &&& diagnostics.pipewire_error is Some
            &&& diagnostics.pipewire_error->Some_0@ == "could not parse pw-dump output: "@
                + json::parsed_json(dump->Ok_0.stdout@)->Err_0
        },
        diagnostics.pipewire_error is Some ==> diagnostics.inventory.sinks@.len() == 0
            && diagnostics.inventory.virtual_sources@.len() == 0
            && diagnostics.inventory.physical_sources@.len() == 0,
        info matches Err(message) ==> diagnostics.pulse_error matches Some(error) && error@
            == message@,
        info matches Ok(output) ==> (diagnostics.pulse_error is None <==> exists|
            before: Seq<char>,
            after: Seq<char>,
        |
            text::ascii_lower(text::lossy_text(output.stdout@)) == #[trigger] (before
                + "pipewire"@ + after)),
        info is Ok && diagnostics.pulse_error is Some ==> diagnostics.pulse_error->Some_0@
            == "pactl is available, but its server is not PipeWire"@,
        version is Ok && outputs is Ok && diagnostics.mpv_error is Some
            ==> diagnostics.mpv_error->Some_0@
            == "mpv does not report PipeWire audio output support"@,
        version matches Err(message) ==> diagnostics.mpv_error matches Some(error) && error@
            == message@,
        version is Ok ==> (outputs matches Err(message) ==> diagnostics.mpv_error matches Some(
            error,
        ) && error@ == message@),
        version is Ok ==> (outputs matches Ok(output) ==> (diagnostics.mpv_error is None <==>
            exists|before: Seq<char>, after: Seq<char>|
            text::ascii_lower(text::lossy_text(output.stdout@ + output.stderr@))
                == #[trigger] (before + "pipewire"@ + after))),
{
    if let Ok(output) = info {
        text::occurring_is_standing_inside(
            "pipewire"@,
            text::ascii_lower(text::lossy_text(output.stdout@)),
        );
    }
    if let Ok(output) = outputs {
        text::occurring_is_standing_inside(
            "pipewire"@,
            text::ascii_lower(text::lossy_text(output.stdout@ + output.stderr@)),
        );
    }
}

/// The nodes of the diagnostics are those that the dump alone gives.
pub proof fn diagnostics_hold_what_the_dump_holds(
    output: CommandOutput,
    info: CommandResult,
    version: CommandResult,
    outputs: CommandResult,
    diagnostics: Diagnostics,
    content: JsonView,
)
    requires
        call_ensures(diagnose, (Ok(output), info, version, outputs), diagnostics),
        json::parsed_json(output.stdout@) == Ok::<JsonView, Seq<char>>(content),
    ensures
        inventory_of(content, diagnostics.inventory),
{
}

/// Mpv is asked for its outputs exactly where they matter: once its version could be had.
pub proof fn outputs_matter_only_with_a_version(
    dump: CommandResult,
    info: CommandResult,
    version: CommandResult,
    outputs: (CommandResult, CommandResult),
    diagnostics: (Diagnostics, Diagnostics),
    asks: bool,
)
    requires
        call_ensures(asks_for_outputs, (&version,), asks),
        call_ensures(diagnose, (dump, info, version, outputs.0), diagnostics.0),
        call_ensures(diagnose, (dump, info, version, outputs.1), diagnostics.1),
    ensures
        asks <==> version is Ok,
        !asks ==> path::optional_text(diagnostics.0.mpv_error) == path::optional_text(
            diagnostics.1.mpv_error,
        ),
{
}

/// Playing needs PipeWire and mpv, creating the microphone needs PipeWire and its Pulse server, and
/// what is missing is told: nothing exactly where both are possible, and each message that there is.
pub proof fn readiness_follows_from_the_errors(
    diagnostics: Diagnostics,
    plays: bool,
    creates: bool,
    errors: Vec<&str>,
)
    requires
        call_ensures(Diagnostics::playback_ready, (&diagnostics,), plays),
        call_ensures(Diagnostics::creation_ready, (&diagnostics,), creates),
        call_ensures(Diagnostics::errors, (&diagnostics,), errors),
    ensures
        errors@.len() == 0 <==> plays && creates,
        plays <==> diagnostics.pipewire_error is None && diagnostics.mpv_error is None,
        creates <==> diagnostics.pipewire_error is None && diagnostics.pulse_error is None,
        diagnostics.pipewire_error matches Some(message) ==> errors@.len() > 0 && errors@[0]@
            == message@,
        diagnostics.mpv_error matches Some(message) ==> errors@.len() > 0 && errors@.last()@
            == message@,
        diagnostics.pulse_error matches Some(message) ==> exists|i: int|
            0 <= i < errors@.len() && (#[trigger] errors@[i])@ == message@,
        errors@.len() == (if diagnostics.pipewire_error is Some {
            1int
        } else {
            0
        }) + (if diagnostics.pulse_error is Some {
            1int
        } else {
            0
        }) + (if diagnostics.mpv_error is Some {
            1int
        } else {
            0
        }),
{
    let views = str_views(errors@);
    assert(views.len() == errors@.len());
    assert forall|i: int| 0 <= i < errors@.len() implies #[trigger] views[i] == errors@[i]@ by {}
    let first = as_list(diagnostics.pipewire_error);
    if let Some(message) = diagnostics.pipewire_error {
        assert(views[0] == message@);
    }
    if let Some(message) = diagnostics.mpv_error {
        assert(views.last() == message@);
        assert(views[views.len() - 1] == errors@[errors@.len() - 1]@);
    }
    if let Some(message) = diagnostics.pulse_error {
        assert(views[first.len() as int] == message@);
        assert(errors@[first.len() as int]@ == message@);
    }
}

/// A sink is there exactly where one of the sinks has its name.
pub proof fn a_sink_is_found_by_its_name(diagnostics: Diagnostics, name: &str, found: bool)
    requires
        call_ensures(Diagnostics::has_sink, (&diagnostics, name), found),
    ensures
        found <==> exists|i: int|
            0 <= i < diagnostics.inventory.sinks@.len() && (
            #[trigger] diagnostics.inventory.sinks@[i]).name@ == name@,
{
}

/// A microphone belongs to a sink where it is the sink's own monitor, or where a module of the list
/// remaps that monitor to it; and to no sink for any other reason.
pub proof fn a_microphone_belongs_to_its_sink(
    modules: &str,
    sink_name: &str,
    source_name: &str,
    matches: bool,
    at: int,
)
    requires
        call_ensures(source_matches_modules, (modules, sink_name, source_name), matches),
    ensures
        source_name@ == sink_name@ + ".monitor"@ ==> matches,
        0 <= at < text::lines_of(modules@).len() && text::occurs_in(
            "module-remap-source"@,
            text::lines_of(modules@)[at],
        ) && text::occurs_in(
            "master="@ + sink_name@ + ".monitor"@,
            text::lines_of(modules@)[at],
        ) && text::occurs_in("source_name="@ + source_name@, text::lines_of(modules@)[at])
            ==> matches,
        matches ==> source_name@ == sink_name@ + ".monitor"@ || exists|i: int|
            0 <= i < text::lines_of(modules@).len() && text::occurs_in(
                "module-remap-source"@,
                #[trigger] text::lines_of(modules@)[i],
            ) && text::occurs_in(
                "master="@ + sink_name@ + ".monitor"@,
                text::lines_of(modules@)[i],
            ) && text::occurs_in("source_name="@ + source_name@, text::lines_of(modules@)[i]),
{
    assert("master="@ + sink_name@ + ".monitor"@ =~= "master="@ + (sink_name@ + ".monitor"@));
    if 0 <= at < text::lines_of(modules@).len() {
        assert(remap_line(text::lines_of(modules@)[at], sink_name@, source_name@) ==> matches);
    }
    if matches && source_name@ != sink_name@ + ".monitor"@ {
        let i = choose|i: int|
            0 <= i < text::lines_of(modules@).len() && #[trigger] remap_line(
                text::lines_of(modules@)[i],
                sink_name@,
                source_name@,
            );
        assert(text::occurs_in("module-remap-source"@, text::lines_of(modules@)[i]));
    }
}

/// The sources of a sink are those of the virtual microphones that belong to it, all of them, and
/// none else; a microphone matches the sink exactly where one of them has its name. Where the
/// modules could not be listed, that is the failure of both.
pub proof fn the_sources_of_a_sink_belong_to_it(
    diagnostics: Diagnostics,
    sink_name: &str,
    modules: CommandResult,
    listing: &str,
    at: int,
    name: &str,
    belongs: bool,
    sources: Result<Vec<AudioNode>, Failure>,
    matches: Result<bool, Failure>,
)
    requires
        call_ensures(sources_for_sink, (&diagnostics, sink_name, &modules), sources),
        call_ensures(source_matches_sink, (&diagnostics, sink_name, name, &modules), matches),
        modules matches Ok(output) ==> listing@ == text::lossy_text(output.stdout@),
        0 <= at < diagnostics.inventory.virtual_sources@.len(),
        name@ == diagnostics.inventory.virtual_sources@[at].name@,
        call_ensures(source_matches_modules, (listing, sink_name, name), belongs),
    ensures
        modules is Ok ==> {
            &&& sources is Ok && matches is Ok
            &&& sources->Ok_0@.contains(diagnostics.inventory.virtual_sources@[at]) <==> belongs
            &&& matches->Ok_0 <==> belongs
            &&& forall|k: int|
                0 <= k < sources->Ok_0@.len() ==> diagnostics.inventory.virtual_sources@.contains(
                    #[trigger] sources->Ok_0@[k],
                )
        },
        modules matches Err(message) ==> {
            &&& sources is Err && sources->Err_0.message@ == message@
            &&& matches is Err && matches->Err_0.message@ == message@
        },
{
    if let Ok(output) = modules {
        let all = diagnostics.inventory.virtual_sources@;
        let follows = |source: AudioNode|
            source_follows_sink(listing@, sink_name@, source.name@);
        let kept = all.filter(follows);
        assert(sources->Ok_0@ == kept);
        assert forall|k: int| 0 <= k < kept.len() implies all.contains(#[trigger] kept[k])
            && follows(kept[k]) by {
            all.lemma_filter_pred(follows, k);
            assert(kept.contains(kept[k]));
            all.lemma_filter_contains_rev(follows, kept[k]);
        }
        if belongs {
            all.lemma_filter_contains(follows, at);
            let k = choose|k: int| 0 <= k < kept.len() && kept[k] == all[at];
            assert(kept[k].name@ == name@);
        }
        if kept.contains(all[at]) {
            let k = choose|k: int| 0 <= k < kept.len() && kept[k] == all[at];
            assert(follows(kept[k]));
        }
        if matches->Ok_0 {
            let k = choose|k: int| 0 <= k < kept.len() && (#[trigger] kept[k]).name@ == name@;
            assert(follows(kept[k]));
        }
    }
}

/// What the configuration asks the server to load is what counts as the loopback: a module that is
/// listed with the arguments of the rendered configuration loops the source back, whatever else
/// stands in its line.
pub proof fn the_configured_loopback_is_recognized(
    source_name: &str,
    config: String,
    modules: &str,
    at: int,
    loaded: bool,
)
    requires
        call_ensures(render_config, (source_name,), config),
        call_ensures(loopback_loaded, (modules, source_name), loaded),
        0 <= at < text::lines_of(modules@).len(),
        text::occurs_in(
            "module-loopback source="@ + source_name@ + " sink=soundboard_tui_mix"@,
            text::lines_of(modules@)[at],
        ),
    ensures
        loaded,
        text::occurs_in(
            "module-loopback source="@ + source_name@ + " sink=soundboard_tui_mix"@,
            config@,
        ),
        text::occurs_in("module-null-sink sink_name=soundboard_tui_mix "@, config@),
{
    let line = text::lines_of(modules@)[at];
    let arguments = "module-loopback source="@ + source_name@ + " sink=soundboard_tui_mix"@;
    reveal_strlit("module-loopback source=");
    reveal_strlit("module-loopback");
    reveal_strlit("source=");
    reveal_strlit(" sink=soundboard_tui_mix");
    reveal_strlit(" sink=");
    reveal_strlit("sink=");
    reveal_strlit("soundboard_tui_mix");
    text::occurring_is_standing_inside(arguments, line);
    let (before, after) = choose|before: Seq<char>, after: Seq<char>|
        line == #[trigger] (before + arguments + after);
    assert(arguments =~= "module-loopback"@ + (seq![' '] + "source="@ + source_name@
        + " sink=soundboard_tui_mix"@));
    lemma_stands_in(
        line,
        before,
        "module-loopback"@,
        seq![' '] + "source="@ + source_name@ + " sink=soundboard_tui_mix"@ + after,
    );
    lemma_stands_in(
        line,
        before + "module-loopback"@ + seq![' '],
        "source="@ + source_name@,
        " sink=soundboard_tui_mix"@ + after,
    );
    lemma_stands_in(
        line,
        before + "module-loopback source="@ + source_name@ + seq![' '],
        "sink="@ + MANAGED_SINK_NAME@,
        after,
    );
    assert(loopback_line(line, source_name@));
    let marker = MANAGED_MARKER@;
    let first =
        "\npulse.cmd = [\n{ cmd = \"load-module\" args = \"module-null-sink sink_name="@;
    let second =
        " sink_properties=device.description=Soundboard_TUI_Mix\" flags = [ ] }\n{ cmd = \"load-module\" args = \"module-loopback source="@;
    let last = "\" flags = [ ] }\n]\n"@;
    reveal_strlit("\npulse.cmd = [\n{ cmd = \"load-module\" args = \"module-null-sink sink_name=");
    reveal_strlit(
        " sink_properties=device.description=Soundboard_TUI_Mix\" flags = [ ] }\n{ cmd = \"load-module\" args = \"module-loopback source=",
    );
    reveal_strlit("module-null-sink sink_name=soundboard_tui_mix ");
    let cut = second.len() - "module-loopback source="@.len();
    assert(second.skip(cut as int) =~= "module-loopback source="@);
    lemma_stands_in(
        config@,
        marker + first + MANAGED_SINK_NAME@ + second.take(cut as int),
        arguments,
        last,
    );
    let null_sink = "module-null-sink sink_name=soundboard_tui_mix "@;
    let head = first.len() - (null_sink.len() - 1 - MANAGED_SINK_NAME@.len());
    assert(first.skip(head as int) + MANAGED_SINK_NAME@ + second.take(1) =~= null_sink);
    lemma_stands_in(
        config@,
        marker + first.take(head as int),
        null_sink,
        second.skip(1) + source_name@ + " sink="@ + MANAGED_SINK_NAME@ + last,
    );
}

proof fn lemma_stands_in(whole: Seq<char>, before: Seq<char>, part: Seq<char>, after: Seq<char>)
    requires
        whole =~= before + part + after,
    ensures
        text::occurs_in(part, whole),
{
    text::occurring_is_standing_inside(part, whole);
    assert(whole == before + part + after);
}

/// Nothing counts as the loopback but a line of the list that names the module, the source and the
/// managed sink.
pub proof fn nothing_else_is_the_loopback(modules: &str, source_name: &str, loaded: bool)
    requires
        call_ensures(loopback_loaded, (modules, source_name), loaded),
        loaded,
    ensures
        exists|i: int|
            0 <= i < text::lines_of(modules@).len() && text::occurs_in(
                "module-loopback"@,
                #[trigger] text::lines_of(modules@)[i],
            ) && text::occurs_in("source="@ + source_name@, text::lines_of(modules@)[i])
                && text::occurs_in("sink=soundboard_tui_mix"@, text::lines_of(modules@)[i]),
{
    reveal_strlit("sink=");
    reveal_strlit("soundboard_tui_mix");
    reveal_strlit("sink=soundboard_tui_mix");
    assert("sink="@ + MANAGED_SINK_NAME@ =~= "sink=soundboard_tui_mix"@);
    let i = choose|i: int|
        0 <= i < text::lines_of(modules@).len() && #[trigger] loopback_line(
            text::lines_of(modules@)[i],
            source_name@,
        );
    assert(text::occurs_in("module-loopback"@, text::lines_of(modules@)[i]));
}

/// The managed mix is ready exactly where its sink and its microphone are there by their names and
/// its loopback is loaded; where the nodes are there but the modules could not be listed, that is
/// the failure.
pub proof fn the_mix_is_ready_when_all_of_it_is_there(
    source_name: &str,
    diagnostics: Diagnostics,
    modules: CommandResult,
    listing: &str,
    loaded: bool,
    present: bool,
    ready: Result<bool, Failure>,
)
    requires
        call_ensures(managed_nodes_present, (&diagnostics,), present),
        call_ensures(managed_mix_ready, (source_name, &diagnostics, &modules), ready),
        modules matches Ok(output) ==> listing@ == text::lossy_text(output.stdout@),
        call_ensures(loopback_loaded, (listing, source_name), loaded),
    ensures
        present <==> (exists|i: int|
            0 <= i < diagnostics.inventory.sinks@.len() && (
            #[trigger] diagnostics.inventory.sinks@[i]).name@ == "soundboard_tui_mix"@) && (exists|
            i: int,
        |
            0 <= i < diagnostics.inventory.virtual_sources@.len() && (
            #[trigger] diagnostics.inventory.virtual_sources@[i]).name@
                == "soundboard_tui_mix.monitor"@),
        !present ==> ready == Ok::<bool, Failure>(false),
        present && modules is Ok ==> ready == Ok::<bool, Failure>(loaded),
        present ==> (modules matches Err(message) ==> ready is Err && ready->Err_0.message@
            == message@),
{
}

/// A source's name is accepted exactly where it is not empty and each of its characters is a letter
/// or a digit of ASCII, a hyphen, a dot, a colon or an underscore; so an accepted name cannot end
/// the text that it is put into.
pub proof fn only_plain_names_are_accepted(name: &str, valid: Result<(), Failure>)
    requires
        call_ensures(validate_source_name, (name,), valid),
    ensures
        valid is Ok <==> name@.len() > 0 && forall|i: int|
            0 <= i < name@.len() ==> {
                let code = (#[trigger] name@[i]) as int;
                ||| 48 <= code <= 57
                ||| 65 <= code <= 90
                ||| 97 <= code <= 122
                ||| code == 45 || code == 46 || code == 58 || code == 95
            },
        valid is Ok ==> !name@.contains('"') && !name@.contains('\n') && !name@.contains(' '),
        valid matches Err(failure) ==> failure.kind == FailureKind::InvalidInput
            && failure.message@ == "source name must match [A-Za-z0-9_.:-]+"@,
{
    assert forall|i: int| 0 <= i < name@.len() implies name_character(name@[i]) == ({
        let code = (#[trigger] name@[i]) as int;
        ||| 48 <= code <= 57
        ||| 65 <= code <= 90
        ||| 97 <= code <= 122
        ||| code == 45 || code == 46 || code == 58 || code == 95
    }) by {}
}

/// The program knows its own configuration: what it renders for a source begins with the marker,
/// may be replaced and counts as installed, and another source gives another configuration.
pub proof fn a_rendered_configuration_is_known(
    source_name: &str,
    config: String,
    seen: &str,
    marked: bool,
    path: PathBuf,
    allowed: Result<(), Failure>,
    installed: Result<bool, Failure>,
    other_name: &str,
    other_config: String,
)
    requires
        call_ensures(render_config, (source_name,), config),
        seen@ == config@,
        call_ensures(has_managed_marker, (seen,), marked),
        call_ensures(protect_unmanaged_file, (&path, &Ok(config)), allowed),
        call_ensures(managed_mix_installed, (&Ok(config),), installed),
        call_ensures(render_config, (other_name,), other_config),
    ensures
        marked,
        allowed is Ok,
        installed == Ok::<bool, Failure>(true),
        config@ == other_config@ ==> source_name@ == other_name@,
{
    rendered_config_is_marked(source_name@);
    if config@ == other_config@ {
        let lead = MANAGED_MARKER@
            + "\npulse.cmd = [\n{ cmd = \"load-module\" args = \"module-null-sink sink_name="@
            + MANAGED_SINK_NAME@
            + " sink_properties=device.description=Soundboard_TUI_Mix\" flags = [ ] }\n{ cmd = \"load-module\" args = \"module-loopback source="@;
        let n = source_name@.len() as int;
        let from = lead.len() as int;
        assert(config@.len() == other_config@.len());
        assert(config@.subrange(from, from + n) =~= source_name@);
        assert(other_config@.subrange(from, from + n) =~= other_name@);
    }
}

/// A file bears the marker exactly where the marker is its first line, however that line ends.
pub proof fn the_marker_is_the_first_line(contents: &str, has: bool)
    requires
        call_ensures(has_managed_marker, (contents,), has),
    ensures
        has <==> (exists|rest: Seq<char>|
            contents@ == #[trigger] ("# Managed by soundboard_tui"@ + "\n"@ + rest)) || (exists|
            rest: Seq<char>,
        | contents@ == #[trigger] ("# Managed by soundboard_tui"@ + "\r\n"@ + rest)),
{
    let first = "# Managed by soundboard_tui"@ + "\n"@;
    let second = "# Managed by soundboard_tui"@ + "\r\n"@;
    if first.is_prefix_of(contents@) {
        assert(contents@ =~= first + contents@.skip(first.len() as int));
    }
    if second.is_prefix_of(contents@) {
        assert(contents@ =~= second + contents@.skip(second.len() as int));
    }
    if exists|rest: Seq<char>| contents@ == #[trigger] (first + rest) {
        assert(contents@.subrange(0, first.len() as int) =~= first);
    }
    if exists|rest: Seq<char>| contents@ == #[trigger] (second + rest) {
        assert(contents@.subrange(0, second.len() as int) =~= second);
    }
}

/// The file may be written exactly where there is none or it counts as installed, and an error of
/// the reading is the error of both.
pub proof fn only_our_own_file_is_replaced(
    path: PathBuf,
    contents: Result<String, Failure>,
    allowed: Result<(), Failure>,
    installed: Result<bool, Failure>,
)
    requires
        call_ensures(protect_unmanaged_file, (&path, &contents), allowed),
        call_ensures(managed_mix_installed, (&contents,), installed),
    ensures
        contents is Ok ==> installed is Ok && (allowed is Ok <==> installed->Ok_0),
        contents is Ok && allowed is Err ==> allowed->Err_0.kind == FailureKind::AlreadyExists,
        contents matches Err(failure) ==> if failure.kind == FailureKind::NotFound {
            allowed is Ok && installed == Ok::<bool, Failure>(false)
        } else {
            &&& allowed is Err && allowed->Err_0.kind == failure.kind
                && allowed->Err_0.message@ == failure.message@
            &&& installed is Err && installed->Err_0.kind == failure.kind
                && installed->Err_0.message@ == failure.message@
        },
{
}

/// The managed configuration stands in the configured directory, and in `.config` of the home
/// directory where none is configured; an empty value counts as none.
pub proof fn the_configuration_has_its_place(
    config_home: Option<PathBuf>,
    home: Option<PathBuf>,
    file: Result<PathBuf, Failure>,
)
    requires
        call_ensures(managed_config_path, (config_home, home), file),
    ensures
        (config_home matches Some(base) && path::path_bytes(base).len() > 0) ==> {
            &&& file is Ok
            &&& path::components_in(path::path_bytes(file->Ok_0)) == path::components_in(
                path::path_bytes(config_home->Some_0),
            ).push(vstd::utf8::encode_utf8("pipewire"@)).push(
                vstd::utf8::encode_utf8("pipewire-pulse.conf.d"@),
            ).push(vstd::utf8::encode_utf8("90-soundboard-tui.conf"@))
        },
        (config_home is None || path::path_bytes(config_home->Some_0).len() == 0) && (
        home matches Some(base) && path::path_bytes(base).len() > 0) ==> {
            &&& file is Ok
            &&& path::components_in(path::path_bytes(file->Ok_0)) == path::components_in(
                path::path_joined(
                    path::path_bytes(home->Some_0),
                    vstd::utf8::encode_utf8(".config"@),
                ),
            ).push(vstd::utf8::encode_utf8("pipewire"@)).push(
                vstd::utf8::encode_utf8("pipewire-pulse.conf.d"@),
            ).push(vstd::utf8::encode_utf8("90-soundboard-tui.conf"@))
        },
        (config_home is None || path::path_bytes(config_home->Some_0).len() == 0) && (home is None
            || path::path_bytes(home->Some_0).len() == 0) ==> file is Err && file->Err_0.kind
            == FailureKind::NotFound,
{
    if let Some(base) = config_home_bytes(config_home, home) {
        managed_config_has_directory(base);
        reveal_strlit("pipewire");
        reveal_strlit("pipewire-pulse.conf.d");
        reveal_strlit("90-soundboard-tui.conf");
        path::lemma_text_is_piece("pipewire"@);
        path::lemma_text_is_piece("pipewire-pulse.conf.d"@);
        path::lemma_text_is_piece(CONFIG_FILE_NAME@);
        let first = path::child_in(base, "pipewire"@);
        let second = path::child_in(first, "pipewire-pulse.conf.d"@);
        path::joined_piece_is_last(base, vstd::utf8::encode_utf8("pipewire"@));
        path::joined_piece_is_last(first, vstd::utf8::encode_utf8("pipewire-pulse.conf.d"@));
        path::joined_piece_is_last(second, vstd::utf8::encode_utf8(CONFIG_FILE_NAME@));
    }
}

} // verus!
