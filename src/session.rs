//! What a connection remembers between frames, and what it publishes for a
//! telemetry sample. The caller performs the replies and the publishing.

use vstd::prelude::*;
use vstd::string::StringExecFns;
use crate::homeassistant::{
    clone_opt, concat, concat3, entities_from_data, entities_of, opt_text, attributes_of,
    Attributes, AttributesView, Device, DeviceView, EntityType, EntityTypeView,
};
use crate::messages::{DataView, IncomingMessageData, IncomingView, SofarMessage};

verus! {

/// What `str::trim` leaves of a text.
pub uninterp spec fn trimmed(s: Seq<char>) -> Seq<char>;

/// Relies on str::trim: leading and trailing white space removed; the
/// result depends on the characters alone.
#[verifier::external_body]
fn trim_text(s: &str) -> (r: String)
    ensures
        r@ == trimmed(s@),
{
    s.trim().to_string()
}

/// What `str::to_lowercase` makes of a text.
pub uninterp spec fn lowercased(s: Seq<char>) -> Seq<char>;

/// Relies on str::to_lowercase: the lower-case mapping of each character;
/// the result depends on the characters alone.
#[verifier::external_body]
fn lowercase_text(s: &str) -> (r: String)
    ensures
        r@ == lowercased(s@),
{
    s.to_lowercase()
}

/// `s` without the NUL characters at either end.
pub open spec fn strip_nul(s: Seq<char>) -> Seq<char>
    decreases s.len(),
{
    if s.len() > 0 && s[0] == '\0' {
        strip_nul(s.skip(1))
    } else if s.len() > 0 && s.last() == '\0' {
        strip_nul(s.drop_last())
    } else {
        s
    }
}

/// Relies on str::trim_matches with the NUL character: every leading and
/// trailing NUL removed, nothing else.
#[verifier::external_body]
fn trim_nul(s: &str) -> (r: String)
    ensures
        r@ == strip_nul(s@),
{
    s.trim_matches(char::from(0)).to_string()
}

/// The topic prefix and device identifier for an inverter serial number.
pub open spec fn prefix_of(serial: Seq<char>) -> Seq<char> {
    "sofar_"@ + lowercased(trimmed(serial))
}

/// The device that an inverter stands for, given what its logger announced.
pub open spec fn inverter_device_of(
    serial: Seq<char>,
    inverter_ip: Option<Seq<char>>,
    module_version: Option<Seq<char>>,
) -> DeviceView {
    DeviceView {
        configuration_url: match inverter_ip {
            Some(ip) => Some("http://"@ + ip + "/index_cn.html"@),
            None => None,
        },
        identifiers: prefix_of(serial),
        manufacturer: "Sofar"@,
        model: trimmed(serial),
        name: "Sofar "@ + trimmed(serial),
        sw_version: module_version,
    }
}

/// The topic prefix and device identifier for an inverter serial number:
/// `sofar_` and the serial trimmed and in lower case.
pub fn device_prefix(serial: &str) -> (r: String)
    ensures
        r@ == prefix_of(serial@),
{
    let t = trim_text(serial);
    let l = lowercase_text(t.as_str());
    concat("sofar_", l.as_str())
}

/// The device that an inverter stands for.
pub fn inverter_device(serial: &str, inverter_ip: &Option<String>, module_version: &Option<String>) -> (r: Device)
    ensures
        r@ == inverter_device_of(serial@, opt_text(*inverter_ip), opt_text(*module_version)),
{
    let model = trim_text(serial);
    let configuration_url = match inverter_ip {
        Some(ip) => Some(concat3("http://", ip.as_str(), "/index_cn.html")),
        None => None,
    };
    Device {
        configuration_url,
        identifiers: device_prefix(serial),
        manufacturer: String::from_str("Sofar"),
        name: concat("Sofar ", model.as_str()),
        model,
        sw_version: clone_opt(module_version),
    }
}

/// Everything to publish for one telemetry sample.
#[derive(Debug, Clone)]
pub struct Publication {
    pub prefix: String,
    pub device: Device,
    pub attributes: Attributes,
    pub entities: Vec<EntityType>,
}

/// The mathematical value of a [`Publication`].
pub struct PublicationView {
    pub prefix: Seq<char>,
    pub device: DeviceView,
    pub attributes: AttributesView,
    pub entities: Seq<EntityTypeView>,
}

impl View for Publication {
    type V = PublicationView;

    open spec fn view(&self) -> PublicationView {
        PublicationView {
            prefix: self.prefix@,
            device: self.device@,
            attributes: self.attributes@,
            entities: self.entities@.map_values(|e: EntityType| e@),
        }
    }
}

/// What a connection remembers from the logger's Hello.
#[derive(Debug, Clone)]
pub struct Session {
    pub inverter_ip: Option<String>,
    pub module_version: Option<String>,
}

/// The mathematical value of a [`Session`].
pub struct SessionView {
    pub inverter_ip: Option<Seq<char>>,
    pub module_version: Option<Seq<char>>,
}

impl View for Session {
    type V = SessionView;

    open spec fn view(&self) -> SessionView {
        SessionView {
            inverter_ip: opt_text(self.inverter_ip),
            module_version: opt_text(self.module_version),
        }
    }
}

/// What is published for sample `d` in session `s`.
pub open spec fn publication_of(d: DataView, s: SessionView) -> PublicationView {
    PublicationView {
        prefix: prefix_of(d.inverter_serial_number),
        device: inverter_device_of(d.inverter_serial_number, s.inverter_ip, s.module_version),
        attributes: attributes_of(d),
        entities: entities_of(d),
    }
}

impl Session {
    /// A connection that has heard no Hello yet.
    pub fn new() -> (r: Session)
        ensures
            r@ == (SessionView { inverter_ip: None, module_version: None }),
    {
        Session { inverter_ip: None, module_version: None }
    }

    /// Takes in a decoded message. A Hello sets the inverter address and the
    /// module version, NUL padding removed; a telemetry sample gives what to
    /// publish; anything else changes nothing.
    pub fn handle(&mut self, message: &SofarMessage<IncomingMessageData>) -> (r: Option<Publication>)
        ensures
            match message.data@ {
                IncomingView::Hello(h) => r is None && final(self)@ == (SessionView {
                    inverter_ip: Some(strip_nul(h.local_ip_address)),
                    module_version: Some(strip_nul(h.module_version)),
                }),
                IncomingView::Data(d) => final(self)@ == old(self)@ && (r matches Some(p) && p@
                    == publication_of(d, old(self)@)),
                _ => r is None && final(self)@ == old(self)@,
            },
    {
        match &message.data {
            IncomingMessageData::Hello(h) => {
                self.inverter_ip = Some(trim_nul(h.local_ip_address.as_str()));
                self.module_version = Some(trim_nul(h.module_version.as_str()));
                None
            },
            IncomingMessageData::Data(d) => {
                let serial = d.inverter_serial_number.as_str();
                let p = Publication {
                    prefix: device_prefix(serial),
                    device: inverter_device(serial, &self.inverter_ip, &self.module_version),
                    attributes: Attributes::from_data(d),
                    entities: entities_from_data(d),
                };
                Some(p)
            },
            _ => None,
        }
    }
}

} // verus!
