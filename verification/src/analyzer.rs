//! Checking a provider declaration and building the validated provider from
//! it. Every fault of the declaration is found and reported, in the order of
//! the declaration; a provider is built only where there is none.

use crate::declaration::{ItemKind, RawDeclaration, RawEvent, RawParam};
use crate::emitter::{
    create_event_metadata, create_provider_metadata, create_provider_traits, event_metadata_len,
    provider_metadata_len, provider_traits_len, MAX_METADATA_LEN,
};
use crate::errors::{CombinedErrors, DiagnosticView, Error, Span};
use crate::event_attributes::{attributes_fold, parse_event_attributes, EventAttributes};
use crate::guid::{
    etw_event_source_guid, guid_is_of_canonical, guid_is_of_wire, guid_of_canonical,
    guid_of_wire, name_guid_bytes, name_hash_input, sha1_digest, GUID,
};
use crate::metadata::{Level, LEVEL_VERBOSE};
use crate::model::{
    events_view, params_view, EventModel, EventSpec, ParamModel, ParamSpec, ProviderModel,
    ProviderSpec,
};
use crate::provider_attributes::{provider_attributes_of, ProviderAttributes};
use crate::text::{copy_str, push_decimal, decimal_text};
use crate::well_known_types::{
    well_known, DeclaredType, DeclaredTypeView, TypeShape, WellKnownType, WellKnownTypes,
};
use vstd::prelude::*;
use vstd::string::{StrSliceExecFns, StringExecFns};

verus! {

/// One fault at one place.
pub open spec fn fault(message: Seq<char>, span: Span) -> Seq<DiagnosticView> {
    seq![DiagnosticView { message, span }]
}

/// One fault at one place, where a condition holds; none where it does not.
pub open spec fn fault_if(condition: bool, message: Seq<char>, span: Span) -> Seq<DiagnosticView> {
    if condition {
        fault(message, span)
    } else {
        Seq::<DiagnosticView>::empty()
    }
}

/// The well-known type that a declared type stands for, and whether it
/// stands for a slice of it. A slice is supported where its items are of a
/// type that can appear in one.
pub open spec fn resolve_type(ty: DeclaredTypeView) -> Option<(WellKnownType, bool)> {
    match well_known(ty) {
        Some(code) => Some((code, false)),
        None => if ty.shape == TypeShape::RefSlice {
            match well_known(DeclaredTypeView { shape: TypeShape::Value, name: ty.name }) {
                Some(code) => if code.info().primitive {
                    Some((code, true))
                } else {
                    None
                },
                None => None,
            }
        } else {
            None
        },
    }
}

/// The field that a parameter becomes, where it is one that an event can
/// have, and the faults of the parameter.
pub open spec fn param_result(param: RawParam) -> (Option<ParamSpec>, Seq<DiagnosticView>) {
    if param.receiver {
        (
            None,
            fault(
                "Event methods should not provide any receiver arguments (&self, &mut self, etc.)."@,
                param.span,
            ),
        )
    } else {
        let (options, faults) = attributes_fold(param.attrs@, true);
        if !param.plain_name {
            (
                None,
                faults + fault(
                    "Only ordinary identifier patterns are supported on event methods."@,
                    param.span,
                ),
            )
        } else {
            match resolve_type(param.ty@) {
                Some((code, is_slice)) => (
                    Some(
                        ParamSpec {
                            name: param.name@,
                            code,
                            is_slice,
                            output_hex: options.output_hex,
                        },
                    ),
                    faults,
                ),
                None => (
                    None,
                    faults + fault(
                        "This type is not supported for event parameters."@,
                        param.span,
                    ),
                ),
            }
        }
    }
}

/// The fields that a list of parameters becomes, in the order of the
/// parameters, and the faults of the parameters, in their order.
pub open spec fn params_result(params: Seq<RawParam>) -> (Seq<ParamSpec>, Seq<DiagnosticView>)
    decreases params.len(),
{
    if params.len() == 0 {
        (Seq::<ParamSpec>::empty(), Seq::<DiagnosticView>::empty())
    } else {
        let (fields, faults) = params_result(params.drop_last());
        let (field, more) = param_result(params.last());
        (
            match field {
                Some(f) => fields.push(f),
                None => fields,
            },
            faults + more,
        )
    }
}

/// The faults of the shape of an event signature.
pub open spec fn shape_faults(event: RawEvent) -> Seq<DiagnosticView> {
    fault_if(event.is_async, "Async event methods are not supported."@, event.span) + fault_if(
        event.is_unsafe,
        "Event methods should not be marked unsafe."@,
        event.span,
    ) + fault_if(event.is_generic, "Generic event methods are not supported."@, event.span)
        + fault_if(event.has_return_type, "Event methods must not return data."@, event.span)
        + fault_if(
        event.has_body,
        "Event methods must not contain an implementation."@,
        event.span,
    )
}

/// An event whose signature has been read, before the events of the provider
/// are checked against each other.
#[derive(Debug)]
pub struct EventDraft {
    /// The name of the event.
    pub name: String,
    /// The options of the event.
    pub options: EventAttributes,
    /// The fields of the event.
    pub params: Vec<ParamModel>,
    /// The documentation of the event.
    pub doc: String,
    /// Where the event stands.
    pub span: Span,
}

/// An event whose signature has been read, as a plain value.
pub struct EventDraftSpec {
    /// The name of the event.
    pub name: Seq<char>,
    /// The options of the event.
    pub options: EventAttributes,
    /// The fields of the event.
    pub params: Seq<ParamSpec>,
    /// The documentation of the event.
    pub doc: Seq<char>,
    /// Where the event stands.
    pub span: Span,
}

impl View for EventDraft {
    type V = EventDraftSpec;

    open spec fn view(&self) -> EventDraftSpec {
        EventDraftSpec {
            name: self.name@,
            options: self.options,
            params: params_view(self.params@),
            doc: self.doc@,
            span: self.span,
        }
    }
}

/// The drafts of a sequence as plain values.
pub open spec fn drafts_view(drafts: Seq<EventDraft>) -> Seq<EventDraftSpec> {
    drafts.map_values(|d: EventDraft| d@)
}

/// What the signature of an event gives, and its faults: those of its shape,
/// then those of its parameters, then those of its attributes.
pub open spec fn event_result(event: RawEvent) -> (EventDraftSpec, Seq<DiagnosticView>) {
    let (fields, param_faults) = params_result(event.params@);
    let (options, attr_faults) = attributes_fold(event.attrs@, false);
    (
        EventDraftSpec {
            name: event.name@,
            options,
            params: fields,
            doc: event.doc@,
            span: event.span,
        },
        shape_faults(event) + param_faults + attr_faults,
    )
}

/// What the signatures of a list of events give, and their faults, in the
/// order of the events.
pub open spec fn events_result(events: Seq<RawEvent>) -> (
    Seq<EventDraftSpec>,
    Seq<DiagnosticView>,
)
    decreases events.len(),
{
    if events.len() == 0 {
        (Seq::<EventDraftSpec>::empty(), Seq::<DiagnosticView>::empty())
    } else {
        let (drafts, faults) = events_result(events.drop_last());
        let (draft, more) = event_result(events.last());
        (drafts.push(draft), faults + more)
    }
}

/// Looks up the well-known type that a declared type stands for.
pub fn find_type(types: &WellKnownTypes, ty: &DeclaredType) -> (found: Option<(WellKnownType, bool)>)
    ensures
        found == resolve_type(ty@),
{
    match types.find(ty) {
        Some(info) => Some((info.code, false)),
        None => {
            match ty.shape {
                TypeShape::RefSlice => {
                    let item = DeclaredType { shape: TypeShape::Value, name: ty.name.clone() };
                    match types.find(&item) {
                        Some(info) => {
                            if info.primitive {
                                Some((info.code, true))
                            } else {
                                None
                            }
                        },
                        None => None,
                    }
                },
                _ => None,
            }
        },
    }
}

/// Reads one parameter of an event: reports its faults, and hands out the
/// field that it becomes where it is one that an event can have.
pub fn parse_event_field(types: &WellKnownTypes, param: &RawParam, errors: &mut CombinedErrors) -> (field:
    Option<ParamModel>)
    ensures
        match field {
            Some(f) => param_result(*param).0 == Some(f@),
            None => param_result(*param).0 is None,
        },
        final(errors)@ == old(errors)@ + param_result(*param).1,
{
    if param.receiver {
        errors.msg(
            param.span,
            "Event methods should not provide any receiver arguments (&self, &mut self, etc.).",
        );
        proof {
            assert(errors@ =~= old(errors)@ + param_result(*param).1);
        }
        return None;
    }
    let options = parse_event_attributes(&param.attrs, true, errors);
    if !param.plain_name {
        errors.msg(param.span, "Only ordinary identifier patterns are supported on event methods.");
        proof {
            assert(errors@ =~= old(errors)@ + param_result(*param).1);
        }
        return None;
    }
    match find_type(types, &param.ty) {
        Some((code, is_slice)) => {
            Some(
                ParamModel {
                    name: copy_str(param.name.as_str()),
                    code,
                    is_slice,
                    output_hex: options.output_hex,
                },
            )
        },
        None => {
            errors.msg(param.span, "This type is not supported for event parameters.");
            proof {
                assert(errors@ =~= old(errors)@ + param_result(*param).1);
            }
            None
        },
    }
}

/// Reports a fault where a condition holds.
pub fn report_if(condition: bool, message: &str, span: Span, errors: &mut CombinedErrors)
    ensures
        final(errors)@ == old(errors)@ + fault_if(condition, message@, span),
{
    if condition {
        errors.msg(span, message);
    }
    proof {
        assert(errors@ =~= old(errors)@ + fault_if(condition, message@, span));
    }
}

/// Reports the faults of the shape of an event signature.
pub fn report_shape(event: &RawEvent, errors: &mut CombinedErrors)
    ensures
        final(errors)@ == old(errors)@ + shape_faults(*event),
{
    report_if(event.is_async, "Async event methods are not supported.", event.span, errors);
    report_if(event.is_unsafe, "Event methods should not be marked unsafe.", event.span, errors);
    report_if(event.is_generic, "Generic event methods are not supported.", event.span, errors);
    report_if(event.has_return_type, "Event methods must not return data.", event.span, errors);
    report_if(
        event.has_body,
        "Event methods must not contain an implementation.",
        event.span,
        errors,
    );
    proof {
        assert(errors@ =~= old(errors)@ + shape_faults(*event));
    }
}

/// Reads the parameters of an event: reports their faults, and hands out the
/// fields that they become, in their order.
pub fn parse_params(types: &WellKnownTypes, params: &Vec<RawParam>, errors: &mut CombinedErrors) -> (fields:
    Vec<ParamModel>)
    ensures
        params_view(fields@) == params_result(params@).0,
        final(errors)@ == old(errors)@ + params_result(params@).1,
{
    let mut fields: Vec<ParamModel> = Vec::new();
    let mut i: usize = 0;
    proof {
        assert(params@.subrange(0, 0) =~= Seq::<RawParam>::empty());
        assert(params_view(fields@) =~= Seq::<ParamSpec>::empty());
        assert(errors@ =~= old(errors)@ + Seq::<DiagnosticView>::empty());
    }
    while i < params.len()
        invariant
            i <= params@.len(),
            params_view(fields@) == params_result(params@.subrange(0, i as int)).0,
            errors@ == old(errors)@ + params_result(params@.subrange(0, i as int)).1,
        decreases params@.len() - i,
    {
        let ghost prior = params_result(params@.subrange(0, i as int)).1;
        let ghost fields_before = fields@;
        proof {
            let longer = params@.subrange(0, i as int + 1);
            assert(longer.drop_last() =~= params@.subrange(0, i as int));
            assert(longer.last() == params@[i as int]);
        }
        match parse_event_field(types, &params[i], errors) {
            Some(field) => {
                fields.push(field);
                proof {
                    assert(params_view(fields@) =~= params_view(fields_before).push(field@));
                }
            },
            None => {},
        }
        proof {
            let more = param_result(params@[i as int]).1;
            assert(errors@ =~= old(errors)@ + (prior + more));
        }
        i = i + 1;
    }
    proof {
        assert(params@.subrange(0, params@.len() as int) =~= params@);
    }
    fields
}

/// Reads the signature of one event: reports its faults, and hands out what
/// the signature gives.
pub fn parse_event(types: &WellKnownTypes, event: &RawEvent, errors: &mut CombinedErrors) -> (draft:
    EventDraft)
    ensures
        draft@ == event_result(*event).0,
        final(errors)@ == old(errors)@ + event_result(*event).1,
{
    report_shape(event, errors);
    let fields = parse_params(types, &event.params, errors);
    let options = parse_event_attributes(&event.attrs, false, errors);
    proof {
        let param_faults = params_result(event.params@).1;
        let attr_faults = attributes_fold(event.attrs@, false).1;
        assert(errors@ =~= old(errors)@ + (shape_faults(*event) + param_faults + attr_faults));
    }
    EventDraft {
        name: copy_str(event.name.as_str()),
        options,
        params: fields,
        doc: copy_str(event.doc.as_str()),
        span: event.span,
    }
}

/// Reads the signatures of the events of a declaration: reports their
/// faults, and hands out what the signatures give.
pub fn parse_events(types: &WellKnownTypes, events: &Vec<RawEvent>, errors: &mut CombinedErrors) -> (drafts:
    Vec<EventDraft>)
    ensures
        drafts_view(drafts@) == events_result(events@).0,
        final(errors)@ == old(errors)@ + events_result(events@).1,
{
    let mut drafts: Vec<EventDraft> = Vec::new();
    let mut i: usize = 0;
    proof {
        assert(events@.subrange(0, 0) =~= Seq::<RawEvent>::empty());
        assert(drafts_view(drafts@) =~= Seq::<EventDraftSpec>::empty());
        assert(errors@ =~= old(errors)@ + Seq::<DiagnosticView>::empty());
    }
    while i < events.len()
        invariant
            i <= events@.len(),
            drafts_view(drafts@) == events_result(events@.subrange(0, i as int)).0,
            errors@ == old(errors)@ + events_result(events@.subrange(0, i as int)).1,
        decreases events@.len() - i,
    {
        let ghost prior = events_result(events@.subrange(0, i as int)).1;
        let ghost drafts_before = drafts@;
        proof {
            let longer = events@.subrange(0, i as int + 1);
            assert(longer.drop_last() =~= events@.subrange(0, i as int));
            assert(longer.last() == events@[i as int]);
        }
        let draft = parse_event(types, &events[i], errors);
        drafts.push(draft);
        proof {
            let more = event_result(events@[i as int]).1;
            assert(drafts_view(drafts@) =~= drafts_view(drafts_before).push(draft@));
            assert(errors@ =~= old(errors)@ + (prior + more));
        }
        i = i + 1;
    }
    proof {
        assert(events@.subrange(0, events@.len() as int) =~= events@);
    }
    drafts
}

/// The event that a draft becomes at a position among the events of its
/// provider: where the declaration gives no identifier, the position is the
/// identifier; where it gives no level, the level is verbose; where it gives
/// no operation code, task or keywords, they are zero.
pub open spec fn event_of(draft: EventDraftSpec, index: int) -> EventSpec {
    EventSpec {
        name: draft.name,
        id: match draft.options.event_id {
            Some(id) => id,
            None => index as u16,
        },
        level: match draft.options.level {
            Some(level) => level,
            None => Level(LEVEL_VERBOSE),
        },
        opcode: match draft.options.opcode {
            Some(opcode) => opcode,
            None => 0,
        },
        task: match draft.options.task {
            Some(task) => task,
            None => 0,
        },
        keyword: match draft.options.keyword {
            Some(keyword) => keyword,
            None => 0,
        },
        doc: draft.doc,
        params: draft.params,
    }
}

/// Whether some event is given an identifier.
pub open spec fn some_has_id(drafts: Seq<EventDraftSpec>) -> bool {
    exists|i: int| 0 <= i < drafts.len() && (#[trigger] drafts[i]).options.event_id is Some
}

/// Whether the event at a position is the first that is given no identifier.
pub open spec fn is_first_without_id(drafts: Seq<EventDraftSpec>, i: int) -> bool {
    &&& 0 <= i < drafts.len()
    &&& drafts[i].options.event_id is None
    &&& forall|k: int| 0 <= k < i ==> (#[trigger] drafts[k]).options.event_id is Some
}

/// Whether some event is given no identifier.
pub open spec fn some_lacks_id(drafts: Seq<EventDraftSpec>) -> bool {
    exists|i: int| is_first_without_id(drafts, i)
}

/// The position of the first event that is given no identifier.
pub open spec fn first_without_id(drafts: Seq<EventDraftSpec>) -> int {
    choose|i: int| is_first_without_id(drafts, i)
}

/// The fault of a provider in which some events are given identifiers and
/// others are not, at the first event that is given none.
pub open spec fn mixed_id_faults(drafts: Seq<EventDraftSpec>) -> Seq<DiagnosticView> {
    if some_has_id(drafts) && some_lacks_id(drafts) {
        fault(
            "Event ids must be set for all events, or for none."@,
            drafts[first_without_id(drafts)].span,
        )
    } else {
        Seq::<DiagnosticView>::empty()
    }
}

/// Whether the event at a position is the first that is given an identifier.
pub open spec fn is_first_owner(drafts: Seq<EventDraftSpec>, id: u16, j: int) -> bool {
    &&& 0 <= j < drafts.len()
    &&& drafts[j].options.event_id == Some(id)
    &&& forall|k: int| 0 <= k < j ==> (#[trigger] drafts[k]).options.event_id != Some(id)
}

/// The position of the first event that is given an identifier.
pub open spec fn first_owner(drafts: Seq<EventDraftSpec>, id: u16) -> int {
    choose|j: int| is_first_owner(drafts, id, j)
}

/// What is said of an identifier that an earlier event has.
pub open spec fn duplicate_message(id: u16, owner: Seq<char>) -> Seq<char> {
    "Event id "@ + decimal_text(id as nat) + " has already been defined on "@ + owner + "."@
}

/// The fault of an event whose identifier an earlier event has: it names the
/// first event with that identifier.
pub open spec fn duplicate_fault(drafts: Seq<EventDraftSpec>, i: int) -> Seq<DiagnosticView> {
    match drafts[i].options.event_id {
        Some(id) => if first_owner(drafts, id) < i {
            fault(duplicate_message(id, drafts[first_owner(drafts, id)].name), drafts[i].span)
        } else {
            Seq::<DiagnosticView>::empty()
        },
        None => Seq::<DiagnosticView>::empty(),
    }
}

/// The faults that an event has among the events of its provider: an
/// identifier that an earlier event has; no identifier, in a provider that is
/// registered in the static mode; and a description that is too long for a blob.
pub open spec fn placed_event_faults(drafts: Seq<EventDraftSpec>, static_mode: bool, i: int) -> Seq<
    DiagnosticView,
> {
    duplicate_fault(drafts, i) + fault_if(
        static_mode && drafts[i].options.event_id is None,
        "Event ids must be set for every event of a provider in static mode."@,
        drafts[i].span,
    ) + fault_if(
        event_metadata_len(event_of(drafts[i], i)) > MAX_METADATA_LEN,
        "The event has too many fields, or names that are too long."@,
        drafts[i].span,
    )
}

/// The faults that the first `upto` events have among the events of their provider.
pub open spec fn placed_events_faults(drafts: Seq<EventDraftSpec>, static_mode: bool, upto: int) -> Seq<
    DiagnosticView,
>
    decreases upto,
{
    if upto <= 0 {
        Seq::<DiagnosticView>::empty()
    } else {
        placed_events_faults(drafts, static_mode, upto - 1) + placed_event_faults(
            drafts,
            static_mode,
            upto - 1,
        )
    }
}

/// The events that the drafts become, in their order.
pub open spec fn events_of(drafts: Seq<EventDraftSpec>) -> Seq<EventSpec> {
    Seq::new(drafts.len(), |i: int| event_of(drafts[i], i))
}

/// The most events that a provider can declare: as many as there are identifiers.
pub const MAX_EVENTS: usize = 0x1_0000;

/// The faults of the events of a provider that show only when the events are
/// held against each other.
pub open spec fn cross_event_faults(drafts: Seq<EventDraftSpec>, static_mode: bool, span: Span) -> Seq<
    DiagnosticView,
> {
    fault_if(
        drafts.len() > MAX_EVENTS,
        "A provider cannot declare more than 65536 events."@,
        span,
    ) + mixed_id_faults(drafts) + placed_events_faults(drafts, static_mode, drafts.len() as int)
}

/// A copy of the fields of an event.
pub fn clone_params(params: &Vec<ParamModel>) -> (copy: Vec<ParamModel>)
    ensures
        params_view(copy@) == params_view(params@),
{
    let mut copy: Vec<ParamModel> = Vec::new();
    let mut i: usize = 0;
    while i < params.len()
        invariant
            i <= params@.len(),
            copy@.len() == i,
            forall|k: int| 0 <= k < i ==> (#[trigger] copy@[k])@ == params@[k]@,
        decreases params@.len() - i,
    {
        let p = &params[i];
        copy.push(
            ParamModel {
                name: copy_str(p.name.as_str()),
                code: p.code,
                is_slice: p.is_slice,
                output_hex: p.output_hex,
            },
        );
        i = i + 1;
    }
    proof {
        assert(params_view(copy@) =~= params_view(params@));
    }
    copy
}

/// Builds the event that a draft becomes at a position.
fn build_event(draft: &EventDraft, index: usize) -> (event: EventModel)
    requires
        index < MAX_EVENTS,
    ensures
        event@ == event_of(draft@, index as int),
{
    EventModel {
        name: copy_str(draft.name.as_str()),
        id: match draft.options.event_id {
            Some(id) => id,
            None => index as u16,
        },
        level: match draft.options.level {
            Some(level) => level,
            None => Level::verbose(),
        },
        opcode: match draft.options.opcode {
            Some(opcode) => opcode,
            None => 0,
        },
        task: match draft.options.task {
            Some(task) => task,
            None => 0,
        },
        keyword: match draft.options.keyword {
            Some(keyword) => keyword,
            None => 0,
        },
        doc: copy_str(draft.doc.as_str()),
        params: clone_params(&draft.params),
    }
}

/// Reports the fault of a provider in which some events are given
/// identifiers and others are not.
pub fn check_mixed_ids(drafts: &Vec<EventDraft>, errors: &mut CombinedErrors)
    ensures
        final(errors)@ == old(errors)@ + mixed_id_faults(drafts_view(drafts@)),
{
    let ghost all = drafts_view(drafts@);
    let mut any_id = false;
    let mut first_without: Option<usize> = None;
    let mut i: usize = 0;
    while i < drafts.len()
        invariant
            i <= drafts@.len(),
            all == drafts_view(drafts@),
            any_id == (exists|k: int| 0 <= k < i && (#[trigger] all[k]).options.event_id is Some),
            match first_without {
                Some(w) => is_first_without_id(all, w as int) && w < i,
                None => forall|k: int| 0 <= k < i ==> (#[trigger] all[k]).options.event_id is Some,
            },
        decreases drafts@.len() - i,
    {
        assert(all[i as int] == drafts@[i as int]@);
        if drafts[i].options.event_id.is_some() {
            any_id = true;
        } else if first_without.is_none() {
            first_without = Some(i);
        }
        i = i + 1;
    }
    proof {
        assert(any_id == some_has_id(all));
    }
    match first_without {
        Some(w) => {
            proof {
                assert(is_first_without_id(all, w as int));
                let chosen = first_without_id(all);
                assert(is_first_without_id(all, chosen));
                assert(chosen == w as int) by {
                    if chosen < w as int {
                        assert(all[chosen].options.event_id is Some);
                    } else if chosen > w as int {
                        assert(all[w as int].options.event_id is Some);
                    }
                }
                assert(all[w as int] == drafts@[w as int]@);
            }
            report_if(
                any_id,
                "Event ids must be set for all events, or for none.",
                drafts[w].span,
                errors,
            );
        },
        None => {
            proof {
                assert(!some_lacks_id(all)) by {
                    if some_lacks_id(all) {
                        let j = choose|j: int| is_first_without_id(all, j);
                        assert(all[j].options.event_id is Some);
                    }
                }
                assert(errors@ =~= old(errors)@ + mixed_id_faults(all));
            }
        },
    }
}

/// Finds the first event that is given an identifier, among the events up to
/// one that is given it.
fn find_first_owner(drafts: &Vec<EventDraft>, id: u16, upto: usize) -> (owner: usize)
    requires
        upto < drafts@.len(),
        drafts@[upto as int].options.event_id == Some(id),
    ensures
        owner <= upto,
        owner as int == first_owner(drafts_view(drafts@), id),
{
    let ghost all = drafts_view(drafts@);
    let mut j: usize = 0;
    assert(all[upto as int] == drafts@[upto as int]@);
    loop
        invariant
            j <= upto < drafts@.len(),
            all == drafts_view(drafts@),
            all[upto as int].options.event_id == Some(id),
            forall|k: int| 0 <= k < j ==> (#[trigger] all[k]).options.event_id != Some(id),
        decreases upto - j,
    {
        assert(all[j as int] == drafts@[j as int]@);
        let found = match drafts[j].options.event_id {
            Some(other) => other == id,
            None => false,
        };
        if found {
            proof {
                assert(is_first_owner(all, id, j as int));
                let chosen = first_owner(all, id);
                assert(is_first_owner(all, id, chosen));
                if chosen < j as int {
                    assert(all[chosen].options.event_id != Some(id));
                } else if chosen > j as int {
                    assert(all[j as int].options.event_id != Some(id));
                }
            }
            return j;
        }
        j = j + 1;
    }
}

/// Reports the fault of an event whose identifier an earlier event has.
fn check_duplicate(drafts: &Vec<EventDraft>, i: usize, errors: &mut CombinedErrors)
    requires
        i < drafts@.len(),
    ensures
        final(errors)@ == old(errors)@ + duplicate_fault(drafts_view(drafts@), i as int),
{
    let ghost all = drafts_view(drafts@);
    assert(all[i as int] == drafts@[i as int]@);
    match drafts[i].options.event_id {
        Some(id) => {
            let owner = find_first_owner(drafts, id, i);
            if owner < i {
                assert(all[owner as int] == drafts@[owner as int]@);
                let mut message = String::from_str("Event id ");
                push_decimal(&mut message, id as u64);
                message.append(" has already been defined on ");
                message.append(drafts[owner].name.as_str());
                message.append(".");
                proof {
                    assert(message@ =~= duplicate_message(id, all[owner as int].name));
                }
                let e = Error::new_owned(drafts[i].span, message);
                errors.push(e);
            } else {
                proof {
                    assert(errors@ =~= old(errors)@ + duplicate_fault(all, i as int));
                }
            }
        },
        None => {
            proof {
                assert(errors@ =~= old(errors)@ + duplicate_fault(all, i as int));
            }
        },
    }
}

/// Holds the events of a provider against each other: reports the faults
/// that show only then, and builds the events.
pub fn place_events(drafts: &Vec<EventDraft>, static_mode: bool, span: Span, errors: &mut CombinedErrors) -> (events:
    Vec<EventModel>)
    ensures
        final(errors)@ == old(errors)@ + cross_event_faults(
            drafts_view(drafts@),
            static_mode,
            span,
        ),
        drafts@.len() <= MAX_EVENTS ==> events_view(events@) == events_of(drafts_view(drafts@)),
{
    let ghost all = drafts_view(drafts@);
    report_if(
        drafts.len() > MAX_EVENTS,
        "A provider cannot declare more than 65536 events.",
        span,
        errors,
    );
    check_mixed_ids(drafts, errors);
    let ghost start = errors@;
    let mut events: Vec<EventModel> = Vec::new();
    let mut i: usize = 0;
    proof {
        assert(errors@ =~= start + placed_events_faults(all, static_mode, 0));
    }
    while i < drafts.len()
        invariant
            i <= drafts@.len(),
            all == drafts_view(drafts@),
            errors@ == start + placed_events_faults(all, static_mode, i as int),
            drafts@.len() <= MAX_EVENTS ==> events@.len() == i,
            drafts@.len() <= MAX_EVENTS ==> forall|k: int|
                0 <= k < i ==> (#[trigger] events@[k])@ == event_of(all[k], k),
        decreases drafts@.len() - i,
    {
        let ghost prior = placed_events_faults(all, static_mode, i as int);
        assert(all[i as int] == drafts@[i as int]@);
        check_duplicate(drafts, i, errors);
        report_if(
            static_mode && drafts[i].options.event_id.is_none(),
            "Event ids must be set for every event of a provider in static mode.",
            drafts[i].span,
            errors,
        );
        if drafts.len() <= MAX_EVENTS {
            let event = build_event(&drafts[i], i);
            let fits = create_event_metadata(&event).is_some();
            report_if(
                !fits,
                "The event has too many fields, or names that are too long.",
                drafts[i].span,
                errors,
            );
            events.push(event);
        } else {
            let too_long = !event_fits(&drafts[i]);
            report_if(
                too_long,
                "The event has too many fields, or names that are too long.",
                drafts[i].span,
                errors,
            );
        }
        proof {
            assert(errors@ =~= start + (prior + placed_event_faults(all, static_mode, i as int)));
        }
        i = i + 1;
    }
    proof {
        if drafts@.len() <= MAX_EVENTS {
            assert(events_view(events@) =~= events_of(all));
        }
        assert(errors@ =~= old(errors)@ + cross_event_faults(all, static_mode, span));
    }
    events
}

/// Checks whether the description of an event fits a blob, whatever the
/// position of the event.
pub fn event_fits(draft: &EventDraft) -> (fits: bool)
    ensures
        forall|index: int| fits == (event_metadata_len(#[trigger] event_of(draft@, index))
            <= MAX_METADATA_LEN),
{
    let event = build_event(draft, 0);
    let fits = create_event_metadata(&event).is_some();
    proof {
        assert forall|index: int| fits == (event_metadata_len(#[trigger] event_of(draft@, index))
            <= MAX_METADATA_LEN) by {
            assert(event_of(draft@, index).params == event_of(draft@, 0).params);
            assert(event_of(draft@, index).name == event_of(draft@, 0).name);
        }
    }
    fits
}

/// The name of the provider that a declaration declares: the name that its
/// configuration gives, or else the identifier of the item.
pub open spec fn provider_name_of(decl: RawDeclaration) -> Seq<char> {
    match provider_attributes_of(decl.attrs@).0.provider_name {
        Some(name) => name,
        None => decl.ident@,
    }
}

/// Whether the name of a provider is too long for its blob, or for its
/// traits where it belongs to a group.
pub open spec fn provider_name_too_long(name: Seq<char>, in_group: bool) -> bool {
    if in_group {
        provider_traits_len(name) > MAX_METADATA_LEN
    } else {
        provider_metadata_len(name) > MAX_METADATA_LEN
    }
}

/// The faults of the name of a provider: a provider without an identifier
/// needs a name, and the name must fit the blob.
pub open spec fn provider_name_faults(decl: RawDeclaration) -> Seq<DiagnosticView> {
    let attrs = provider_attributes_of(decl.attrs@).0;
    let name = provider_name_of(decl);
    fault_if(
        attrs.uuid is None && name.len() == 0,
        "A provider requires a name or a GUID."@,
        decl.span,
    ) + fault_if(
        provider_name_too_long(name, attrs.provider_group_guid is Some),
        "The provider name is too long."@,
        decl.span,
    )
}

/// Every fault of a declaration, in the order in which the declaration is
/// read: those of the provider's configuration, those of its name, those of
/// each event, and those that show when the events are held against each
/// other. A declaration that is attached to the wrong kind of item has that
/// one fault.
pub open spec fn declaration_faults(decl: RawDeclaration) -> Seq<DiagnosticView> {
    if decl.kind != ItemKind::Trait {
        fault(
            "The #[trace_logging_provider] attribute cannot be used with this kind of item."@,
            decl.span,
        )
    } else {
        provider_attributes_of(decl.attrs@).1 + provider_name_faults(decl) + events_result(
            decl.events@,
        ).1 + cross_event_faults(
            events_result(decl.events@).0,
            provider_attributes_of(decl.attrs@).0.static_mode,
            decl.span,
        )
    }
}

/// The provider that a declaration without faults declares. Its identifier
/// is the one that its configuration gives, or else the one that its name
/// gives.
pub open spec fn declaration_model(decl: RawDeclaration) -> ProviderSpec {
    let attrs = provider_attributes_of(decl.attrs@).0;
    let name = provider_name_of(decl);
    ProviderSpec {
        name,
        guid: match attrs.uuid {
            Some(bytes) => guid_of_canonical(bytes),
            None => guid_of_wire(name_guid_bytes(sha1_digest(name_hash_input(name)))),
        },
        provider_group_guid: match attrs.provider_group_guid {
            Some(bytes) => Some(guid_of_canonical(bytes)),
            None => None,
        },
        static_mode: attrs.static_mode,
        events: events_of(events_result(decl.events@).0),
    }
}

/// Reports the faults of the name of a provider.
fn check_provider_name(
    decl: &RawDeclaration,
    attrs: &ProviderAttributes,
    name: &str,
    errors: &mut CombinedErrors,
)
    requires
        attrs@ == provider_attributes_of(decl.attrs@).0,
        name@ == provider_name_of(*decl),
    ensures
        final(errors)@ == old(errors)@ + provider_name_faults(*decl),
{
    report_if(
        attrs.uuid.is_none() && name.unicode_len() == 0,
        "A provider requires a name or a GUID.",
        decl.span,
        errors,
    );
    let too_long = match &attrs.provider_group_guid {
        Some(group) => create_provider_traits(name, group).is_none(),
        None => create_provider_metadata(name).is_none(),
    };
    report_if(too_long, "The provider name is too long.", decl.span, errors);
    proof {
        assert(errors@ =~= old(errors)@ + provider_name_faults(*decl));
    }
}

/// Checks a provider declaration and builds the provider from it.
///
/// Every fault of the declaration is reported, in the order in which the
/// declaration is read. The provider is built where there is no fault, and
/// only there.
pub fn analyze(decl: &RawDeclaration) -> (r: Result<ProviderModel, Error>)
    ensures
        match r {
            Ok(model) => declaration_faults(*decl).len() == 0 && model@ == declaration_model(
                *decl,
            ),
            Err(e) => e@ == declaration_faults(*decl),
        },
{
    let mut errors = CombinedErrors::default();
    if decl.kind != ItemKind::Trait {
        let e = Error::new(
            decl.span,
            "The #[trace_logging_provider] attribute cannot be used with this kind of item.",
        );
        return Err(e);
    }
    let attrs = ProviderAttributes::parse_into(&decl.attrs, &mut errors);
    let name: String = match &attrs.provider_name {
        Some(n) => copy_str(n.as_str()),
        None => copy_str(decl.ident.as_str()),
    };
    check_provider_name(decl, &attrs, name.as_str(), &mut errors);
    let types = WellKnownTypes::new();
    let drafts = parse_events(&types, &decl.events, &mut errors);
    let events = place_events(&drafts, attrs.static_mode, decl.span, &mut errors);
    proof {
        assert(errors@ =~= declaration_faults(*decl));
    }
    if !errors.is_empty() {
        let no_events: Vec<EventModel> = Vec::new();
        let nothing = ProviderModel {
            name,
            guid: GUID::default(),
            provider_group_guid: None,
            static_mode: false,
            events: no_events,
        };
        return errors.into_result(nothing);
    }
    let ProviderAttributes { uuid, provider_name: _, provider_group_guid, static_mode } = attrs;
    let guid = match uuid {
        Some(g) => {
            proof {
                guid_is_of_canonical(g);
            }
            g
        },
        None => {
            let g = etw_event_source_guid(name.as_str());
            proof {
                guid_is_of_wire(g);
            }
            g
        },
    };
    proof {
        if provider_group_guid is Some {
            guid_is_of_canonical(provider_group_guid->0);
        }
        assert(drafts@.len() <= MAX_EVENTS) by {
            if drafts@.len() > MAX_EVENTS {
                let first = fault(
                    "A provider cannot declare more than 65536 events."@,
                    decl.span,
                );
                assert(cross_event_faults(
                    drafts_view(drafts@),
                    attrs.static_mode,
                    decl.span,
                ).len() > 0);
            }
        }
    }
    Ok(ProviderModel { name, guid, provider_group_guid, static_mode, events })
}

/// A parameter without faults becomes a field of its own name.
pub proof fn param_without_faults_is_a_field(param: RawParam)
    requires
        param_result(param).1.len() == 0,
    ensures
        param_result(param).0 is Some,
        param_result(param).0->0.name == param.name@,
{
}

/// The parameters of an event without faults become its fields one by one,
/// in their order.
pub proof fn params_keep_their_order(params: Seq<RawParam>)
    requires
        params_result(params).1.len() == 0,
    ensures
        params_result(params).0.len() == params.len(),
        forall|j: int|
            0 <= j < params.len() ==> (#[trigger] params_result(params).0[j]).name
                == params[j].name@,
    decreases params.len(),
{
    if params.len() > 0 {
        let shorter = params.drop_last();
        assert(params_result(shorter).1.len() == 0);
        assert(param_result(params.last()).1.len() == 0);
        params_keep_their_order(shorter);
        param_without_faults_is_a_field(params.last());
        assert forall|j: int| 0 <= j < params.len() implies (#[trigger] params_result(
            params,
        ).0[j]).name == params[j].name@ by {
            if j < shorter.len() {
                assert(params_result(params).0[j] == params_result(shorter).0[j]);
                assert(shorter[j] == params[j]);
            }
        }
    }
}

/// The events of a declaration without faults in their signatures are read
/// one by one, in their order, and so are the parameters of each.
pub proof fn events_keep_their_order(events: Seq<RawEvent>)
    requires
        events_result(events).1.len() == 0,
    ensures
        events_result(events).0.len() == events.len(),
        forall|i: int|
            0 <= i < events.len() ==> (#[trigger] events_result(events).0[i]).name
                == events[i].name@ && events_result(events).0[i].params.len()
                == events[i].params@.len(),
        forall|i: int, j: int|
            0 <= i < events.len() && 0 <= j < events[i].params@.len() ==> (
            #[trigger] events_result(events).0[i].params[j]).name == events[i].params@[j].name@,
    decreases events.len(),
{
    if events.len() > 0 {
        let shorter = events.drop_last();
        let last = events.last();
        assert(events_result(shorter).1.len() == 0);
        assert(event_result(last).1.len() == 0);
        assert(params_result(last.params@).1.len() == 0);
        events_keep_their_order(shorter);
        params_keep_their_order(last.params@);
        assert forall|i: int| 0 <= i < events.len() implies (#[trigger] events_result(
            events,
        ).0[i]).name == events[i].name@ && events_result(events).0[i].params.len()
            == events[i].params@.len() by {
            if i < shorter.len() {
                assert(events_result(events).0[i] == events_result(shorter).0[i]);
                assert(shorter[i] == events[i]);
            }
        }
        assert forall|i: int, j: int|
            0 <= i < events.len() && 0 <= j < events[i].params@.len() implies (
        #[trigger] events_result(events).0[i].params[j]).name == events[i].params@[j].name@ by {
            if i < shorter.len() {
                assert(events_result(events).0[i] == events_result(shorter).0[i]);
                assert(shorter[i] == events[i]);
            }
        }
    }
}

/// Analysis preserves order: in the provider that a declaration without
/// faults declares, the Nth event is the Nth declared event, and its Nth
/// field is its Nth declared parameter.
pub proof fn analysis_preserves_order(decl: RawDeclaration, i: int, j: int)
    requires
        declaration_faults(decl).len() == 0,
        0 <= i < decl.events@.len(),
        0 <= j < decl.events@[i].params@.len(),
    ensures
        declaration_model(decl).events.len() == decl.events@.len(),
        declaration_model(decl).events[i].name == decl.events@[i].name@,
        declaration_model(decl).events[i].params.len() == decl.events@[i].params@.len(),
        declaration_model(decl).events[i].params[j].name == decl.events@[i].params@[j].name@,
{
    assert(events_result(decl.events@).1.len() == 0);
    events_keep_their_order(decl.events@);
    let drafts = events_result(decl.events@).0;
    assert(events_of(drafts)[i] == event_of(drafts[i], i));
    assert(drafts[i].params[j].name == decl.events@[i].params@[j].name@);
}

/// The blob of each event of a provider that a declaration without faults
/// declares fits the length that a blob can have.
pub proof fn analysed_events_fit(decl: RawDeclaration, i: int)
    requires
        declaration_faults(decl).len() == 0,
        0 <= i < decl.events@.len(),
    ensures
        event_metadata_len(declaration_model(decl).events[i]) <= MAX_METADATA_LEN,
{
    assert(events_result(decl.events@).1.len() == 0);
    events_keep_their_order(decl.events@);
    let drafts = events_result(decl.events@).0;
    let static_mode = provider_attributes_of(decl.attrs@).0.static_mode;
    assert(cross_event_faults(drafts, static_mode, decl.span).len() == 0);
    assert(placed_events_faults(drafts, static_mode, drafts.len() as int).len() == 0);
    placed_faults_cover_each(drafts, static_mode, drafts.len() as int, i);
}

/// Where the first events of a provider have no faults among the events of
/// the provider, none of them has.
pub proof fn placed_faults_cover_each(
    drafts: Seq<EventDraftSpec>,
    static_mode: bool,
    upto: int,
    i: int,
)
    requires
        placed_events_faults(drafts, static_mode, upto).len() == 0,
        0 <= i < upto,
    ensures
        placed_event_faults(drafts, static_mode, i).len() == 0,
    decreases upto,
{
    if i < upto - 1 {
        placed_faults_cover_each(drafts, static_mode, upto - 1, i);
    }
}

/// Whether a run of faults stands, whole and in its order, within another.
pub open spec fn stands_within(part: Seq<DiagnosticView>, whole: Seq<DiagnosticView>) -> bool {
    exists|at: int|
        0 <= at && at + part.len() <= whole.len() && #[trigger] whole.subrange(
            at,
            at + part.len(),
        ) == part
}

/// A run of faults that stands within another stands within what the other
/// is a part of.
pub proof fn stands_within_more(
    part: Seq<DiagnosticView>,
    whole: Seq<DiagnosticView>,
    before: Seq<DiagnosticView>,
    after: Seq<DiagnosticView>,
)
    requires
        stands_within(part, whole),
    ensures
        stands_within(part, before + whole + after),
{
    let at = choose|at: int|
        0 <= at && at + part.len() <= whole.len() && #[trigger] whole.subrange(
            at,
            at + part.len(),
        ) == part;
    let all = before + whole + after;
    let there = before.len() + at;
    assert(all.subrange(there, there + part.len()) =~= whole.subrange(at, at + part.len()));
}

/// A run of faults stands within itself.
pub proof fn stands_within_itself(part: Seq<DiagnosticView>)
    ensures
        stands_within(part, part),
{
    assert(part.subrange(0, 0int + part.len()) =~= part);
}

/// The faults of each parameter of an event stand among the faults of the
/// parameters of the event.
pub proof fn param_faults_are_kept(params: Seq<RawParam>, j: int)
    requires
        0 <= j < params.len(),
    ensures
        stands_within(param_result(params[j]).1, params_result(params).1),
    decreases params.len(),
{
    let shorter = params.drop_last();
    let before = params_result(shorter).1;
    let last = param_result(params.last()).1;
    let nothing = Seq::<DiagnosticView>::empty();
    if j == params.len() - 1 {
        stands_within_itself(last);
        stands_within_more(last, last, before, nothing);
        assert(before + last + nothing =~= before + last);
    } else {
        param_faults_are_kept(shorter, j);
        assert(shorter[j] == params[j]);
        stands_within_more(param_result(params[j]).1, before, nothing, last);
        assert(nothing + before + last =~= before + last);
    }
}

/// The faults of each event of a declaration stand among the faults of the
/// events of the declaration.
pub proof fn event_faults_are_kept(events: Seq<RawEvent>, i: int)
    requires
        0 <= i < events.len(),
    ensures
        stands_within(event_result(events[i]).1, events_result(events).1),
    decreases events.len(),
{
    let shorter = events.drop_last();
    let before = events_result(shorter).1;
    let last = event_result(events.last()).1;
    let nothing = Seq::<DiagnosticView>::empty();
    if i == events.len() - 1 {
        stands_within_itself(last);
        stands_within_more(last, last, before, nothing);
        assert(before + last + nothing =~= before + last);
    } else {
        event_faults_are_kept(shorter, i);
        assert(shorter[i] == events[i]);
        stands_within_more(event_result(events[i]).1, before, nothing, last);
        assert(nothing + before + last =~= before + last);
    }
}

/// Analysis does not stop at the first fault: every fault of the
/// configuration of a provider, and every fault of every parameter of every
/// one of its events, stands among the faults of the declaration, whatever
/// else is wrong with the declaration.
pub proof fn no_fault_is_lost(decl: RawDeclaration, i: int, j: int)
    requires
        decl.kind == ItemKind::Trait,
        0 <= i < decl.events@.len(),
        0 <= j < decl.events@[i].params@.len(),
    ensures
        stands_within(provider_attributes_of(decl.attrs@).1, declaration_faults(decl)),
        stands_within(param_result(decl.events@[i].params@[j]).1, declaration_faults(decl)),
{
    let attrs = provider_attributes_of(decl.attrs@).1;
    let names = provider_name_faults(decl);
    let events = events_result(decl.events@).1;
    let cross = cross_event_faults(
        events_result(decl.events@).0,
        provider_attributes_of(decl.attrs@).0.static_mode,
        decl.span,
    );
    let nothing = Seq::<DiagnosticView>::empty();
    let all = declaration_faults(decl);
    stands_within_itself(attrs);
    stands_within_more(attrs, attrs, nothing, names + events + cross);
    assert(nothing + attrs + (names + events + cross) =~= all);

    let event = decl.events@[i];
    let of_param = param_result(event.params@[j]).1;
    let of_params = params_result(event.params@).1;
    let of_attrs = attributes_fold(event.attrs@, false).1;
    param_faults_are_kept(event.params@, j);
    stands_within_more(of_param, of_params, shape_faults(event), of_attrs);
    event_faults_are_kept(decl.events@, i);
    let of_event = event_result(event).1;
    let at = choose|at: int|
        0 <= at && at + of_param.len() <= of_event.len() && #[trigger] of_event.subrange(
            at,
            at + of_param.len(),
        ) == of_param;
    let here = choose|here: int|
        0 <= here && here + of_event.len() <= events.len() && #[trigger] events.subrange(
            here,
            here + of_event.len(),
        ) == of_event;
    assert(events.subrange(here + at, here + at + of_param.len()) =~= of_event.subrange(
        at,
        at + of_param.len(),
    ));
    assert(stands_within(of_param, events));
    stands_within_more(of_param, events, attrs + names, cross);
    assert(attrs + names + events + cross =~= all);
}

/// An event whose identifier an earlier event has is reported with a fault
/// that names the first event with that identifier.
pub proof fn repeated_id_names_first_owner(
    drafts: Seq<EventDraftSpec>,
    static_mode: bool,
    earlier: int,
    later: int,
)
    requires
        0 <= earlier < later < drafts.len(),
        drafts[earlier].options.event_id is Some,
        drafts[earlier].options.event_id == drafts[later].options.event_id,
    ensures
        is_first_owner(
            drafts,
            drafts[later].options.event_id->0,
            first_owner(drafts, drafts[later].options.event_id->0),
        ),
        first_owner(drafts, drafts[later].options.event_id->0) <= earlier,
        stands_within(
            fault(
                duplicate_message(
                    drafts[later].options.event_id->0,
                    drafts[first_owner(drafts, drafts[later].options.event_id->0)].name,
                ),
                drafts[later].span,
            ),
            placed_events_faults(drafts, static_mode, drafts.len() as int),
        ),
{
    let id = drafts[later].options.event_id->0;
    first_owner_exists(drafts, id, earlier);
    let owner = first_owner(drafts, id);
    if owner > earlier {
        assert(drafts[earlier].options.event_id != Some(id));
    }
    let named = fault(duplicate_message(id, drafts[owner].name), drafts[later].span);
    assert(duplicate_fault(drafts, later) == named);
    let of_event = placed_event_faults(drafts, static_mode, later);
    let rest = of_event.subrange(named.len() as int, of_event.len() as int);
    stands_within_itself(named);
    stands_within_more(named, named, Seq::<DiagnosticView>::empty(), rest);
    assert(Seq::<DiagnosticView>::empty() + named + rest =~= of_event);
    placed_faults_are_kept(drafts, static_mode, drafts.len() as int, later);
    let whole = placed_events_faults(drafts, static_mode, drafts.len() as int);
    let at = choose|at: int|
        0 <= at && at + named.len() <= of_event.len() && #[trigger] of_event.subrange(
            at,
            at + named.len(),
        ) == named;
    let here = choose|here: int|
        0 <= here && here + of_event.len() <= whole.len() && #[trigger] whole.subrange(
            here,
            here + of_event.len(),
        ) == of_event;
    assert(whole.subrange(here + at, here + at + named.len()) =~= of_event.subrange(
        at,
        at + named.len(),
    ));
}

/// Where an event is given an identifier, some event is the first that is
/// given it.
pub proof fn first_owner_exists(drafts: Seq<EventDraftSpec>, id: u16, holder: int)
    requires
        0 <= holder < drafts.len(),
        drafts[holder].options.event_id == Some(id),
    ensures
        is_first_owner(drafts, id, first_owner(drafts, id)),
    decreases holder,
{
    if forall|k: int| 0 <= k < holder ==> (#[trigger] drafts[k]).options.event_id != Some(id) {
        assert(is_first_owner(drafts, id, holder));
    } else {
        let k = choose|k: int|
            0 <= k < holder && (#[trigger] drafts[k]).options.event_id == Some(id);
        first_owner_exists(drafts, id, k);
    }
}

/// The faults that an event has among the events of its provider stand
/// among those of the events up to a later one.
pub proof fn placed_faults_are_kept(
    drafts: Seq<EventDraftSpec>,
    static_mode: bool,
    upto: int,
    i: int,
)
    requires
        0 <= i < upto,
    ensures
        stands_within(
            placed_event_faults(drafts, static_mode, i),
            placed_events_faults(drafts, static_mode, upto),
        ),
    decreases upto,
{
    let before = placed_events_faults(drafts, static_mode, upto - 1);
    let last = placed_event_faults(drafts, static_mode, upto - 1);
    let nothing = Seq::<DiagnosticView>::empty();
    if i == upto - 1 {
        stands_within_itself(last);
        stands_within_more(last, last, before, nothing);
        assert(before + last + nothing =~= before + last);
    } else {
        placed_faults_are_kept(drafts, static_mode, upto - 1, i);
        stands_within_more(placed_event_faults(drafts, static_mode, i), before, nothing, last);
        assert(nothing + before + last =~= before + last);
    }
}

/// Where an event is given no identifier, some event is the first that is
/// given none.
pub proof fn first_without_id_exists(drafts: Seq<EventDraftSpec>, lacking: int)
    requires
        0 <= lacking < drafts.len(),
        drafts[lacking].options.event_id is None,
    ensures
        is_first_without_id(drafts, first_without_id(drafts)),
        first_without_id(drafts) <= lacking,
    decreases lacking,
{
    if forall|k: int| 0 <= k < lacking ==> (#[trigger] drafts[k]).options.event_id is Some {
        assert(is_first_without_id(drafts, lacking));
    } else {
        let k = choose|k: int|
            0 <= k < lacking && (#[trigger] drafts[k]).options.event_id is None;
        first_without_id_exists(drafts, k);
    }
    let first = first_without_id(drafts);
    if first > lacking {
        assert(drafts[lacking].options.event_id is Some);
    }
}

/// A provider in which one event is given an identifier and another is given
/// none has one fault for that, at the first event that is given none;
/// and where nothing else is wrong with its declaration, the declaration has
/// that fault and no other.
pub proof fn mixed_ids_are_one_fault(decl: RawDeclaration, given: int, lacking: int)
    requires
        decl.kind == ItemKind::Trait,
        0 <= given < events_result(decl.events@).0.len(),
        0 <= lacking < events_result(decl.events@).0.len(),
        events_result(decl.events@).0[given].options.event_id is Some,
        events_result(decl.events@).0[lacking].options.event_id is None,
    ensures
        mixed_id_faults(events_result(decl.events@).0) == fault(
            "Event ids must be set for all events, or for none."@,
            events_result(decl.events@).0[first_without_id(events_result(decl.events@).0)].span,
        ),
        first_without_id(events_result(decl.events@).0) <= lacking,
        stands_within(mixed_id_faults(events_result(decl.events@).0), declaration_faults(decl)),
        provider_attributes_of(decl.attrs@).1.len() == 0 && provider_name_faults(decl).len() == 0
            && events_result(decl.events@).1.len() == 0 && decl.events@.len() <= MAX_EVENTS
            && placed_events_faults(
            events_result(decl.events@).0,
            provider_attributes_of(decl.attrs@).0.static_mode,
            events_result(decl.events@).0.len() as int,
        ).len() == 0 ==> declaration_faults(decl) == mixed_id_faults(
            events_result(decl.events@).0,
        ),
{
    let drafts = events_result(decl.events@).0;
    let static_mode = provider_attributes_of(decl.attrs@).0.static_mode;
    first_without_id_exists(drafts, lacking);
    assert(some_has_id(drafts));
    assert(some_lacks_id(drafts));
    let mixed = mixed_id_faults(drafts);
    let attrs = provider_attributes_of(decl.attrs@).1;
    let names = provider_name_faults(decl);
    let events = events_result(decl.events@).1;
    let count = fault_if(
        drafts.len() > MAX_EVENTS,
        "A provider cannot declare more than 65536 events."@,
        decl.span,
    );
    let placed = placed_events_faults(drafts, static_mode, drafts.len() as int);
    stands_within_itself(mixed);
    stands_within_more(mixed, mixed, attrs + names + events + count, placed);
    assert(attrs + names + events + count + mixed + placed =~= declaration_faults(decl));
    if attrs.len() == 0 && names.len() == 0 && events.len() == 0 && decl.events@.len()
        <= MAX_EVENTS && placed.len() == 0 {
        events_keep_their_order(decl.events@);
        assert(declaration_faults(decl) =~= mixed);
    }
}

} // verus!
