//! The options that a declaration attaches to an event or to one of its
//! parameters.

use crate::declaration::{AttrKind, AttrValue, RawAttr, RawAttribute};
use crate::errors::{CombinedErrors, DiagnosticView, Span};
use crate::metadata::{Level, LEVEL_CRITICAL, LEVEL_ERROR, LEVEL_INFO, LEVEL_VERBOSE, LEVEL_WARN};
use crate::text::str_eq;
use vstd::prelude::*;

verus! {

/// The options of an event, or of a parameter, as far as its declaration gives them.
#[derive(Copy, Clone, PartialEq, Eq, Structural, Debug)]
pub struct EventAttributes {
    /// The level at which the event is reported.
    pub level: Option<Level>,
    /// The operation code of the event.
    pub opcode: Option<u8>,
    /// The task of the event.
    pub task: Option<u16>,
    /// The keywords of the event.
    pub keyword: Option<u64>,
    /// The identifier of the event.
    pub event_id: Option<u16>,
    /// Whether a parameter is displayed in hexadecimal.
    pub output_hex: bool,
}

/// The options in which nothing is given.
pub open spec fn no_options() -> EventAttributes {
    EventAttributes {
        level: None,
        opcode: None,
        task: None,
        keyword: None,
        event_id: None,
        output_hex: false,
    }
}

impl Default for EventAttributes {
    fn default() -> (options: EventAttributes)
        ensures
            options == no_options(),
    {
        EventAttributes {
            level: None,
            opcode: None,
            task: None,
            keyword: None,
            event_id: None,
            output_hex: false,
        }
    }
}

/// The level that a name stands for.
pub open spec fn level_of_name(name: Seq<char>) -> Option<Level> {
    if name == "critical"@ {
        Some(Level(LEVEL_CRITICAL))
    } else if name == "error"@ {
        Some(Level(LEVEL_ERROR))
    } else if name == "warn"@ {
        Some(Level(LEVEL_WARN))
    } else if name == "info"@ {
        Some(Level(LEVEL_INFO))
    } else if name == "verbose"@ {
        Some(Level(LEVEL_VERBOSE))
    } else {
        None
    }
}

/// The level that a name stands for.
pub fn find_level(name: &str) -> (level: Option<Level>)
    ensures
        level == level_of_name(name@),
{
    if str_eq(name, "critical") {
        Some(Level::critical())
    } else if str_eq(name, "error") {
        Some(Level::error())
    } else if str_eq(name, "warn") {
        Some(Level::warn())
    } else if str_eq(name, "info") {
        Some(Level::info())
    } else if str_eq(name, "verbose") {
        Some(Level::verbose())
    } else {
        None
    }
}

/// The options of an event after one more item, and what is wrong with the
/// item, if anything. A key that was given before is a fault, whatever its
/// value.
pub open spec fn event_item_step(state: EventAttributes, item: RawAttr) -> (
    EventAttributes,
    Option<Seq<char>>,
) {
    if item.key@ == "level"@ {
        if state.level is Some {
            (state, Some("The 'level' attribute cannot be specified more than once."@))
        } else {
            match item.value {
                AttrValue::Str(name) => match level_of_name(name@) {
                    Some(level) => (EventAttributes { level: Some(level), ..state }, None),
                    None => (
                        EventAttributes { level: Some(Level(LEVEL_VERBOSE)), ..state },
                        Some("The value specified for 'level' is not a valid string."@),
                    ),
                },
                AttrValue::Int(n) => if n <= 0xff {
                    (EventAttributes { level: Some(Level(n as u8)), ..state }, None)
                } else {
                    (state, Some("The value specified for 'level' is not recognized."@))
                },
                _ => (state, Some("The value specified for 'level' is not recognized."@)),
            }
        }
    } else if item.key@ == "opcode"@ {
        if state.opcode is Some {
            (state, Some("The 'opcode' attribute cannot be specified more than once."@))
        } else {
            match item.value {
                AttrValue::Int(n) => if n <= 0xff {
                    (EventAttributes { opcode: Some(n as u8), ..state }, None)
                } else {
                    (state, Some("The value specified for 'opcode' must be a u8."@))
                },
                _ => (state, Some("The value specified for 'opcode' must be a u8."@)),
            }
        }
    } else if item.key@ == "task"@ {
        if state.task is Some {
            (state, Some("The 'task' attribute cannot be specified more than once."@))
        } else {
            match item.value {
                AttrValue::Int(n) => if n <= 0xffff {
                    (EventAttributes { task: Some(n as u16), ..state }, None)
                } else {
                    (state, Some("The value specified for 'task' must be a u16."@))
                },
                _ => (state, Some("The value specified for 'task' must be a u16."@)),
            }
        }
    } else if item.key@ == "keyword"@ {
        if state.keyword is Some {
            (state, Some("The 'keyword' attribute cannot be specified more than once."@))
        } else {
            match item.value {
                AttrValue::Int(n) => (EventAttributes { keyword: Some(n), ..state }, None),
                _ => (state, Some("The value specified for 'keyword' must be a u64."@)),
            }
        }
    } else if item.key@ == "id"@ {
        if state.event_id is Some {
            (state, Some("Event id has already been defined."@))
        } else {
            match item.value {
                AttrValue::Int(n) => if n <= 0xffff {
                    (EventAttributes { event_id: Some(n as u16), ..state }, None)
                } else {
                    (state, Some("Event id must be a u16."@))
                },
                _ => (state, Some("Event id must be a u16."@)),
            }
        }
    } else {
        (state, Some("Unrecognized attribute."@))
    }
}

/// The options of a parameter after one more item, and what is wrong with
/// the item, if anything.
pub open spec fn param_item_step(state: EventAttributes, item: RawAttr) -> (
    EventAttributes,
    Option<Seq<char>>,
) {
    if item.key@ == "output"@ {
        match item.value {
            AttrValue::Str(name) => if name@ == "hex"@ {
                (EventAttributes { output_hex: true, ..state }, None)
            } else {
                (state, Some("The value specified for 'output' is not recognized."@))
            },
            _ => (state, Some("The value specified for 'output' must be a string."@)),
        }
    } else {
        (state, Some("Unrecognized attribute."@))
    }
}

/// The options after one more item, of an event or of a parameter.
pub open spec fn item_step(state: EventAttributes, item: RawAttr, on_param: bool) -> (
    EventAttributes,
    Option<Seq<char>>,
) {
    if on_param {
        param_item_step(state, item)
    } else {
        event_item_step(state, item)
    }
}

/// No fault, or the one fault with the given message at the given place.
pub open spec fn fault_at(message: Option<Seq<char>>, span: Span) -> Seq<DiagnosticView> {
    match message {
        Some(m) => seq![DiagnosticView { message: m, span }],
        None => Seq::<DiagnosticView>::empty(),
    }
}

/// The options after the items of one attribute, and the faults of the
/// items, in their order.
pub open spec fn items_fold(start: EventAttributes, items: Seq<RawAttr>, on_param: bool) -> (
    EventAttributes,
    Seq<DiagnosticView>,
)
    decreases items.len(),
{
    if items.len() == 0 {
        (start, Seq::<DiagnosticView>::empty())
    } else {
        let (before, faults) = items_fold(start, items.drop_last(), on_param);
        let (after, message) = item_step(before, items.last(), on_param);
        (after, faults + fault_at(message, items.last().span))
    }
}

/// The options after one more attribute, and the faults of the attribute.
pub open spec fn attribute_step(state: EventAttributes, attr: RawAttribute, on_param: bool) -> (
    EventAttributes,
    Seq<DiagnosticView>,
) {
    match attr.kind {
        AttrKind::Doc => (state, Seq::<DiagnosticView>::empty()),
        AttrKind::Event => items_fold(state, attr.items@, on_param),
        AttrKind::EventMalformed => (
            state,
            seq![
                DiagnosticView {
                    message: "The form of the #[event] attribute is invalid. It should be: #[event(name = \"value\", name2 = \"value2\", ...)]."@,
                    span: attr.span,
                },
            ],
        ),
        AttrKind::Foreign => (
            state,
            seq![
                DiagnosticView {
                    message: "The only attributes allowed on event methods are #[doc] and #[event(...)] attributes."@,
                    span: attr.span,
                },
            ],
        ),
    }
}

/// The options that the attributes of an event, or of a parameter, give, and
/// every fault of the attributes, in their order.
pub open spec fn attributes_fold(attrs: Seq<RawAttribute>, on_param: bool) -> (
    EventAttributes,
    Seq<DiagnosticView>,
)
    decreases attrs.len(),
{
    if attrs.len() == 0 {
        (no_options(), Seq::<DiagnosticView>::empty())
    } else {
        let (before, faults) = attributes_fold(attrs.drop_last(), on_param);
        let (after, more) = attribute_step(before, attrs.last(), on_param);
        (after, faults + more)
    }
}

/// Takes one item of the options of an event into account.
pub fn apply_event_item(state: EventAttributes, item: &RawAttr) -> (r: (
    EventAttributes,
    Option<&'static str>,
))
    ensures
        r.0 == event_item_step(state, *item).0,
        match r.1 {
            Some(m) => event_item_step(state, *item).1 == Some(m@),
            None => event_item_step(state, *item).1 is None,
        },
{
    let key = item.key.as_str();
    let mut next = state;
    if str_eq(key, "level") {
        if state.level.is_some() {
            return (state, Some("The 'level' attribute cannot be specified more than once."));
        }
        match &item.value {
            AttrValue::Str(name) => {
                match find_level(name.as_str()) {
                    Some(level) => {
                        next.level = Some(level);
                        (next, None)
                    },
                    None => {
                        next.level = Some(Level::verbose());
                        (next, Some("The value specified for 'level' is not a valid string."))
                    },
                }
            },
            AttrValue::Int(n) => {
                if *n <= 0xff {
                    next.level = Some(Level(*n as u8));
                    (next, None)
                } else {
                    (state, Some("The value specified for 'level' is not recognized."))
                }
            },
            _ => (state, Some("The value specified for 'level' is not recognized.")),
        }
    } else if str_eq(key, "opcode") {
        if state.opcode.is_some() {
            return (state, Some("The 'opcode' attribute cannot be specified more than once."));
        }
        match &item.value {
            AttrValue::Int(n) => {
                if *n <= 0xff {
                    next.opcode = Some(*n as u8);
                    (next, None)
                } else {
                    (state, Some("The value specified for 'opcode' must be a u8."))
                }
            },
            _ => (state, Some("The value specified for 'opcode' must be a u8.")),
        }
    } else if str_eq(key, "task") {
        if state.task.is_some() {
            return (state, Some("The 'task' attribute cannot be specified more than once."));
        }
        match &item.value {
            AttrValue::Int(n) => {
                if *n <= 0xffff {
                    next.task = Some(*n as u16);
                    (next, None)
                } else {
                    (state, Some("The value specified for 'task' must be a u16."))
                }
            },
            _ => (state, Some("The value specified for 'task' must be a u16.")),
        }
    } else if str_eq(key, "keyword") {
        if state.keyword.is_some() {
            return (state, Some("The 'keyword' attribute cannot be specified more than once."));
        }
        match &item.value {
            AttrValue::Int(n) => {
                next.keyword = Some(*n);
                (next, None)
            },
            _ => (state, Some("The value specified for 'keyword' must be a u64.")),
        }
    } else if str_eq(key, "id") {
        if state.event_id.is_some() {
            return (state, Some("Event id has already been defined."));
        }
        match &item.value {
            AttrValue::Int(n) => {
                if *n <= 0xffff {
                    next.event_id = Some(*n as u16);
                    (next, None)
                } else {
                    (state, Some("Event id must be a u16."))
                }
            },
            _ => (state, Some("Event id must be a u16.")),
        }
    } else {
        (state, Some("Unrecognized attribute."))
    }
}

/// Takes one item of the options of a parameter into account.
pub fn apply_param_item(state: EventAttributes, item: &RawAttr) -> (r: (
    EventAttributes,
    Option<&'static str>,
))
    ensures
        r.0 == param_item_step(state, *item).0,
        match r.1 {
            Some(m) => param_item_step(state, *item).1 == Some(m@),
            None => param_item_step(state, *item).1 is None,
        },
{
    let key = item.key.as_str();
    let mut next = state;
    if str_eq(key, "output") {
        match &item.value {
            AttrValue::Str(name) => {
                if str_eq(name.as_str(), "hex") {
                    next.output_hex = true;
                    (next, None)
                } else {
                    (state, Some("The value specified for 'output' is not recognized."))
                }
            },
            _ => (state, Some("The value specified for 'output' must be a string.")),
        }
    } else {
        (state, Some("Unrecognized attribute."))
    }
}

/// Takes the items of one attribute into account, and adds their faults to a
/// collection.
pub fn apply_items(
    start: EventAttributes,
    items: &Vec<RawAttr>,
    on_param: bool,
    errors: &mut CombinedErrors,
) -> (state: EventAttributes)
    ensures
        state == items_fold(start, items@, on_param).0,
        final(errors)@ == old(errors)@ + items_fold(start, items@, on_param).1,
{
    let mut state = start;
    let mut i: usize = 0;
    proof {
        assert(items@.subrange(0, 0) =~= Seq::<RawAttr>::empty());
        assert(errors@ =~= old(errors)@ + Seq::<DiagnosticView>::empty());
    }
    while i < items.len()
        invariant
            i <= items@.len(),
            state == items_fold(start, items@.subrange(0, i as int), on_param).0,
            errors@ == old(errors)@ + items_fold(start, items@.subrange(0, i as int), on_param).1,
        decreases items@.len() - i,
    {
        let item = &items[i];
        let ghost prior = items_fold(start, items@.subrange(0, i as int), on_param).1;
        proof {
            let longer = items@.subrange(0, i as int + 1);
            assert(longer.drop_last() =~= items@.subrange(0, i as int));
            assert(longer.last() == items@[i as int]);
        }
        let (next, message) = if on_param {
            apply_param_item(state, item)
        } else {
            apply_event_item(state, item)
        };
        state = next;
        match message {
            Some(m) => {
                errors.msg(item.span, m);
                proof {
                    let fault = fault_at(Some(m@), item.span);
                    assert(errors@ =~= old(errors)@ + (prior + fault));
                }
            },
            None => {
                proof {
                    let fault = fault_at(None, item.span);
                    assert(errors@ =~= old(errors)@ + (prior + fault));
                }
            },
        }
        i = i + 1;
    }
    proof {
        assert(items@.subrange(0, items@.len() as int) =~= items@);
    }
    state
}

/// Reads the options that the attributes of an event, or of a parameter,
/// give, and adds every fault of the attributes to a collection.
pub fn parse_event_attributes(attrs: &Vec<RawAttribute>, on_param: bool, errors: &mut CombinedErrors) -> (state:
    EventAttributes)
    ensures
        state == attributes_fold(attrs@, on_param).0,
        final(errors)@ == old(errors)@ + attributes_fold(attrs@, on_param).1,
{
    let mut state = EventAttributes::default();
    let mut i: usize = 0;
    proof {
        assert(attrs@.subrange(0, 0) =~= Seq::<RawAttribute>::empty());
        assert(errors@ =~= old(errors)@ + Seq::<DiagnosticView>::empty());
    }
    while i < attrs.len()
        invariant
            i <= attrs@.len(),
            state == attributes_fold(attrs@.subrange(0, i as int), on_param).0,
            errors@ == old(errors)@ + attributes_fold(attrs@.subrange(0, i as int), on_param).1,
        decreases attrs@.len() - i,
    {
        let attr = &attrs[i];
        let ghost prior = attributes_fold(attrs@.subrange(0, i as int), on_param).1;
        let ghost before = state;
        proof {
            let longer = attrs@.subrange(0, i as int + 1);
            assert(longer.drop_last() =~= attrs@.subrange(0, i as int));
            assert(longer.last() == attrs@[i as int]);
        }
        match attr.kind {
            AttrKind::Doc => {},
            AttrKind::Event => {
                state = apply_items(state, &attr.items, on_param, errors);
            },
            AttrKind::EventMalformed => {
                errors.msg(
                    attr.span,
                    "The form of the #[event] attribute is invalid. It should be: #[event(name = \"value\", name2 = \"value2\", ...)].",
                );
            },
            AttrKind::Foreign => {
                errors.msg(
                    attr.span,
                    "The only attributes allowed on event methods are #[doc] and #[event(...)] attributes.",
                );
            },
        }
        proof {
            let more = attribute_step(before, attrs@[i as int], on_param).1;
            assert(errors@ =~= old(errors)@ + (prior + more));
        }
        i = i + 1;
    }
    proof {
        assert(attrs@.subrange(0, attrs@.len() as int) =~= attrs@);
    }
    state
}

} // verus!
