//! The logical CWMP messages that the session state machine reads and writes.
//!
//! An [`Envelope`] carries a correlation id and exactly one body. The wire
//! form of an envelope is not this module's concern: it deals in the values
//! that a codec produces and consumes.

use vstd::prelude::*;

verus! {

/// One named, typed parameter of a device's data model.
#[derive(Debug, Clone, PartialEq, Eq)]
pub struct ParameterValue {
    pub name: String,
    pub xsi_type: String,
    pub value: String,
}

/// [`ParameterValue`] as a mathematical value.
pub struct ParameterValueView {
    pub name: Seq<char>,
    pub xsi_type: Seq<char>,
    pub value: Seq<char>,
}

impl View for ParameterValue {
    type V = ParameterValueView;

    open spec fn view(&self) -> ParameterValueView {
        ParameterValueView { name: self.name@, xsi_type: self.xsi_type@, value: self.value@ }
    }
}

impl ParameterValue {
    /// The parameter `name` of type `xsi_type` with the value `value`.
    pub fn new(name: &str, xsi_type: &str, value: &str) -> (r: Self)
        ensures
            r@ == (ParameterValueView { name: name@, xsi_type: xsi_type@, value: value@ }),
    {
        ParameterValue {
            name: name.to_owned(),
            xsi_type: xsi_type.to_owned(),
            value: value.to_owned(),
        }
    }
}

/// The views of a list of parameters, in order.
pub open spec fn parameter_views(list: Seq<ParameterValue>) -> Seq<ParameterValueView> {
    list.map_values(|p: ParameterValue| p@)
}

/// Whether `i` is the position of the first parameter of `list` called `name`.
pub open spec fn first_named(list: Seq<ParameterValueView>, name: Seq<char>, i: int) -> bool {
    &&& 0 <= i < list.len()
    &&& list[i].name == name
    &&& forall|j: int| 0 <= j < i ==> list[j].name != name
}

/// The value of the first parameter of `list` called `name`, if there is one.
pub open spec fn value_of(list: Seq<ParameterValueView>, name: Seq<char>) -> Option<Seq<char>> {
    if exists|i: int| first_named(list, name, i) {
        Some(list[choose|i: int| first_named(list, name, i)].value)
    } else {
        None
    }
}

/// At most one position is the first one that carries a given name.
pub proof fn lemma_first_named_unique(
    list: Seq<ParameterValueView>,
    name: Seq<char>,
    i: int,
    j: int,
)
    requires
        first_named(list, name, i),
        first_named(list, name, j),
    ensures
        i == j,
{
}

/// An ordered list of parameters, as devices report and receive them.
#[derive(Debug, Clone, PartialEq, Eq)]
pub struct ParameterList {
    pub parameter_values: Vec<ParameterValue>,
}

impl View for ParameterList {
    type V = Seq<ParameterValueView>;

    open spec fn view(&self) -> Seq<ParameterValueView> {
        parameter_views(self.parameter_values@)
    }
}

impl ParameterList {
    /// A list without parameters.
    pub fn new() -> (r: Self)
        ensures
            r@ == Seq::<ParameterValueView>::empty(),
    {
        ParameterList { parameter_values: Vec::new() }
    }

    /// Appends one parameter.
    pub fn push(&mut self, value: ParameterValue)
        ensures
            final(self)@ == old(self)@.push(value@),
    {
        self.parameter_values.push(value);
    }

    /// The value of the first parameter called `name`.
    pub fn get_value(&self, name: &str) -> (r: Option<&str>)
        ensures
            match r {
                Some(v) => value_of(self@, name@) == Some(v@),
                None => value_of(self@, name@) is None,
            },
    {
        let wanted = name.to_owned();
        let mut i: usize = 0;
        while i < self.parameter_values.len()
            invariant
                i <= self.parameter_values@.len(),
                wanted@ == name@,
                forall|j: int| 0 <= j < i ==> self@[j].name != name@,
            decreases self.parameter_values@.len() - i,
        {
            if self.parameter_values[i].name == wanted {
                proof {
                    let k: int = choose|k: int| first_named(self@, name@, k);
                    lemma_first_named_unique(self@, name@, i as int, k);
                }
                return Some(self.parameter_values[i].value.as_str());
            }
            i = i + 1;
        }
        None
    }
}

/// The identity block with which a device introduces itself.
#[derive(Debug, Clone, PartialEq, Eq)]
pub struct DeviceId {
    pub manufacturer: String,
    pub oui: String,
    pub product_class: String,
    pub serial_number: String,
}

/// [`DeviceId`] as a mathematical value.
pub struct DeviceIdView {
    pub manufacturer: Seq<char>,
    pub oui: Seq<char>,
    pub product_class: Seq<char>,
    pub serial_number: Seq<char>,
}

impl View for DeviceId {
    type V = DeviceIdView;

    open spec fn view(&self) -> DeviceIdView {
        DeviceIdView {
            manufacturer: self.manufacturer@,
            oui: self.oui@,
            product_class: self.product_class@,
            serial_number: self.serial_number@,
        }
    }
}

impl DeviceIdView {
    /// The identity of a device that has not introduced itself yet.
    pub open spec fn unknown() -> DeviceIdView {
        DeviceIdView {
            manufacturer: Seq::empty(),
            oui: Seq::empty(),
            product_class: Seq::empty(),
            serial_number: Seq::empty(),
        }
    }
}

impl Default for DeviceId {
    fn default() -> (r: Self)
        ensures
            r@ == DeviceIdView::unknown(),
    {
        DeviceId {
            manufacturer: String::new(),
            oui: String::new(),
            product_class: String::new(),
            serial_number: String::new(),
        }
    }
}

/// One event that made a device open a session.
#[derive(Debug, Clone, PartialEq, Eq)]
pub struct EventStruct {
    pub event_code: String,
    pub command_key: String,
}

/// [`EventStruct`] as a mathematical value.
pub struct EventStructView {
    pub event_code: Seq<char>,
    pub command_key: Seq<char>,
}

impl View for EventStruct {
    type V = EventStructView;

    open spec fn view(&self) -> EventStructView {
        EventStructView { event_code: self.event_code@, command_key: self.command_key@ }
    }
}

/// The message with which a device opens a management exchange.
#[derive(Debug, Clone, PartialEq, Eq)]
pub struct Inform {
    pub device_id: DeviceId,
    pub event: Vec<EventStruct>,
    pub parameter_list: ParameterList,
}

/// [`Inform`] as a mathematical value.
pub struct InformView {
    pub device_id: DeviceIdView,
    pub event: Seq<EventStructView>,
    pub parameter_list: Seq<ParameterValueView>,
}

impl View for Inform {
    type V = InformView;

    open spec fn view(&self) -> InformView {
        InformView {
            device_id: self.device_id@,
            event: self.event@.map_values(|e: EventStruct| e@),
            parameter_list: self.parameter_list@,
        }
    }
}

/// The directive that sets parameters on a device.
#[derive(Debug, Clone, PartialEq, Eq)]
pub struct SetParameterValues {
    pub parameter_list: ParameterList,
    pub parameter_key: u32,
}

/// [`SetParameterValues`] as a mathematical value.
pub struct SetParameterValuesView {
    pub parameter_list: Seq<ParameterValueView>,
    pub parameter_key: u32,
}

impl View for SetParameterValues {
    type V = SetParameterValuesView;

    open spec fn view(&self) -> SetParameterValuesView {
        SetParameterValuesView {
            parameter_list: self.parameter_list@,
            parameter_key: self.parameter_key,
        }
    }
}

/// What an envelope carries: exactly one message, or nothing that the server knows.
#[derive(Debug, Clone, PartialEq, Eq)]
pub enum Body {
    /// No message, or one of a shape that the server does not handle.
    Empty,
    Inform(Inform),
    InformResponse { max_envelopes: u32 },
    GetParameterValues { parameter_names: Vec<String> },
    GetParameterValuesResponse { parameter_list: ParameterList },
    SetParameterValues(SetParameterValues),
    SetParameterValuesResponse { status: u32 },
}

/// [`Body`] as a mathematical value.
pub enum BodyView {
    Empty,
    Inform(InformView),
    InformResponse { max_envelopes: u32 },
    GetParameterValues { parameter_names: Seq<Seq<char>> },
    GetParameterValuesResponse { parameter_list: Seq<ParameterValueView> },
    SetParameterValues(SetParameterValuesView),
    SetParameterValuesResponse { status: u32 },
}

impl View for Body {
    type V = BodyView;

    open spec fn view(&self) -> BodyView {
        match self {
            Body::Empty => BodyView::Empty,
            Body::Inform(inform) => BodyView::Inform(inform@),
            Body::InformResponse { max_envelopes } => BodyView::InformResponse {
                max_envelopes: *max_envelopes,
            },
            Body::GetParameterValues { parameter_names } => BodyView::GetParameterValues {
                parameter_names: parameter_names@.map_values(|n: String| n@),
            },
            Body::GetParameterValuesResponse { parameter_list } => {
                BodyView::GetParameterValuesResponse { parameter_list: parameter_list@ }
            },
            Body::SetParameterValues(spv) => BodyView::SetParameterValues(spv@),
            Body::SetParameterValuesResponse { status } => BodyView::SetParameterValuesResponse {
                status: *status,
            },
        }
    }
}

/// The kinds of message that an envelope can carry.
#[derive(Debug, Clone, Copy, PartialEq, Eq, Structural)]
pub enum Kind {
    Empty,
    Inform,
    InformResponse,
    GetParameterValues,
    GetParameterValuesResponse,
    SetParameterValues,
    SetParameterValuesResponse,
}

impl BodyView {
    pub open spec fn kind(self) -> Kind {
        match self {
            BodyView::Empty => Kind::Empty,
            BodyView::Inform(_) => Kind::Inform,
            BodyView::InformResponse { .. } => Kind::InformResponse,
            BodyView::GetParameterValues { .. } => Kind::GetParameterValues,
            BodyView::GetParameterValuesResponse { .. } => Kind::GetParameterValuesResponse,
            BodyView::SetParameterValues(_) => Kind::SetParameterValues,
            BodyView::SetParameterValuesResponse { .. } => Kind::SetParameterValuesResponse,
        }
    }
}

/// A CWMP message: a correlation id and one body.
#[derive(Debug, Clone, PartialEq, Eq)]
pub struct Envelope {
    pub id: u32,
    pub body: Body,
}

/// [`Envelope`] as a mathematical value.
pub struct EnvelopeView {
    pub id: u32,
    pub body: BodyView,
}

impl View for Envelope {
    type V = EnvelopeView;

    open spec fn view(&self) -> EnvelopeView {
        EnvelopeView { id: self.id, body: self.body@ }
    }
}

impl EnvelopeView {
    /// The envelope with the same body under another correlation id.
    pub open spec fn with_id(self, id: u32) -> EnvelopeView {
        EnvelopeView { id, body: self.body }
    }

    /// The acknowledgement of an Inform that carried the correlation id `id`.
    pub open spec fn inform_response(id: u32) -> EnvelopeView {
        EnvelopeView { id, body: BodyView::InformResponse { max_envelopes: 1 } }
    }
}

impl Envelope {
    /// An envelope without a message.
    pub fn new(id: u32) -> (r: Self)
        ensures
            r@ == (EnvelopeView { id, body: BodyView::Empty }),
    {
        Envelope { id, body: Body::Empty }
    }

    /// The correlation id.
    pub fn id(&self) -> (r: u32)
        ensures
            r == self@.id,
    {
        self.id
    }

    /// The kind of message carried.
    pub fn kind(&self) -> (r: Kind)
        ensures
            r == self@.body.kind(),
    {
        match &self.body {
            Body::Empty => Kind::Empty,
            Body::Inform(_) => Kind::Inform,
            Body::InformResponse { .. } => Kind::InformResponse,
            Body::GetParameterValues { .. } => Kind::GetParameterValues,
            Body::GetParameterValuesResponse { .. } => Kind::GetParameterValuesResponse,
            Body::SetParameterValues(_) => Kind::SetParameterValues,
            Body::SetParameterValuesResponse { .. } => Kind::SetParameterValuesResponse,
        }
    }

    /// The Inform carried, if this is one.
    pub fn inform(&self) -> (r: Option<&Inform>)
        ensures
            match r {
                Some(inform) => self@.body == BodyView::Inform(inform@),
                None => self@.body.kind() != Kind::Inform,
            },
    {
        match &self.body {
            Body::Inform(inform) => Some(inform),
            _ => None,
        }
    }

    /// The status of the parameter-set response carried, if this is one.
    pub fn spv_response(&self) -> (r: Option<u32>)
        ensures
            match r {
                Some(status) => self@.body == (BodyView::SetParameterValuesResponse { status }),
                None => self@.body.kind() != Kind::SetParameterValuesResponse,
            },
    {
        match &self.body {
            Body::SetParameterValuesResponse { status } => Some(*status),
            _ => None,
        }
    }

    /// The parameters of the parameter-read response carried, if this is one.
    pub fn gpv_response(&self) -> (r: Option<&ParameterList>)
        ensures
            match r {
                Some(list) => self@.body == (BodyView::GetParameterValuesResponse {
                    parameter_list: list@,
                }),
                None => self@.body.kind() != Kind::GetParameterValuesResponse,
            },
    {
        match &self.body {
            Body::GetParameterValuesResponse { parameter_list } => Some(parameter_list),
            _ => None,
        }
    }

    /// Makes this envelope the acknowledgement of an Inform.
    pub fn add_inform_response(&mut self)
        ensures
            final(self)@ == EnvelopeView::inform_response(old(self)@.id),
    {
        self.body = Body::InformResponse { max_envelopes: 1 };
    }

    /// Makes this envelope a directive that sets `parameter_list` under `parameter_key`.
    pub fn add_spv(&mut self, parameter_key: u32, parameter_list: ParameterList)
        ensures
            final(self)@ == (EnvelopeView {
                id: old(self)@.id,
                body: BodyView::SetParameterValues(
                    SetParameterValuesView { parameter_list: parameter_list@, parameter_key },
                ),
            }),
    {
        self.body = Body::SetParameterValues(SetParameterValues { parameter_list, parameter_key });
    }

    /// Makes this envelope a request to read the parameters called `parameter_names`.
    pub fn add_gpv(&mut self, parameter_names: Vec<String>)
        ensures
            final(self)@ == (EnvelopeView {
                id: old(self)@.id,
                body: BodyView::GetParameterValues {
                    parameter_names: parameter_names@.map_values(|n: String| n@),
                },
            }),
    {
        self.body = Body::GetParameterValues { parameter_names };
    }
}

} // verus!
