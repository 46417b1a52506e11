//! Discovery metadata for a home-automation system: the device that a
//! logger's inverter stands for, the sensor entities announced for it and
//! the topics that readings are published under.

use vstd::prelude::*;
use vstd::string::StringExecFns;
use crate::messages::{Data, DataView};
use crate::wire::Scaled;

verus! {

/// The characters of an optional text.
pub open spec fn opt_text(o: Option<String>) -> Option<Seq<char>> {
    match o {
        Some(s) => Some(s@),
        None => None,
    }
}

/// A copy of an optional text.
pub fn clone_opt(o: &Option<String>) -> (r: Option<String>)
    ensures
        opt_text(r) == opt_text(*o),
{
    match o {
        Some(s) => Some(s.clone()),
        None => None,
    }
}

/// `a` followed by `b`.
pub fn concat(a: &str, b: &str) -> (r: String)
    ensures
        r@ == a@ + b@,
{
    let mut s = String::from_str(a);
    s.append(b);
    s
}

/// `a`, `b` and `c` one after the other.
pub fn concat3(a: &str, b: &str, c: &str) -> (r: String)
    ensures
        r@ == a@ + b@ + c@,
{
    let mut s = String::from_str(a);
    s.append(b);
    s.append(c);
    s
}

/// The device that discovery entities belong to.
#[derive(Debug, Clone)]
pub struct Device {
    pub configuration_url: Option<String>,
    pub identifiers: String,
    pub manufacturer: String,
    pub model: String,
    pub name: String,
    pub sw_version: Option<String>,
}

/// The mathematical value of a [`Device`].
pub struct DeviceView {
    pub configuration_url: Option<Seq<char>>,
    pub identifiers: Seq<char>,
    pub manufacturer: Seq<char>,
    pub model: Seq<char>,
    pub name: Seq<char>,
    pub sw_version: Option<Seq<char>>,
}

impl View for Device {
    type V = DeviceView;

    open spec fn view(&self) -> DeviceView {
        DeviceView {
            configuration_url: opt_text(self.configuration_url),
            identifiers: self.identifiers@,
            manufacturer: self.manufacturer@,
            model: self.model@,
            name: self.name@,
            sw_version: opt_text(self.sw_version),
        }
    }
}

impl Device {
    /// A copy of this device.
    pub fn duplicate(&self) -> (r: Device)
        ensures
            r@ == self@,
    {
        Device {
            configuration_url: clone_opt(&self.configuration_url),
            identifiers: self.identifiers.clone(),
            manufacturer: self.manufacturer.clone(),
            model: self.model.clone(),
            name: self.name.clone(),
            sw_version: clone_opt(&self.sw_version),
        }
    }
}

/// Descriptive readings of a telemetry sample, published as one document.
#[derive(Debug, Clone)]
pub struct Attributes {
    pub timestamp: u32,
    pub total_time: u32,
    pub inverter_firmware: String,
    pub hardware_version: String,
    pub country_code: u16,
    pub main_inverter_firmware: String,
    pub slave_inverter_firmware: String,
    pub year: u8,
    pub month: u8,
    pub day: u8,
    pub hour: u8,
    pub minute: u8,
    pub second: u8,
}

/// The mathematical value of [`Attributes`].
pub struct AttributesView {
    pub timestamp: u32,
    pub total_time: u32,
    pub inverter_firmware: Seq<char>,
    pub hardware_version: Seq<char>,
    pub country_code: u16,
    pub main_inverter_firmware: Seq<char>,
    pub slave_inverter_firmware: Seq<char>,
    pub year: u8,
    pub month: u8,
    pub day: u8,
    pub hour: u8,
    pub minute: u8,
    pub second: u8,
}

impl View for Attributes {
    type V = AttributesView;

    open spec fn view(&self) -> AttributesView {
        AttributesView {
            timestamp: self.timestamp,
            total_time: self.total_time,
            inverter_firmware: self.inverter_firmware@,
            hardware_version: self.hardware_version@,
            country_code: self.country_code,
            main_inverter_firmware: self.main_inverter_firmware@,
            slave_inverter_firmware: self.slave_inverter_firmware@,
            year: self.year,
            month: self.month,
            day: self.day,
            hour: self.hour,
            minute: self.minute,
            second: self.second,
        }
    }
}

/// The attributes that a telemetry sample carries.
pub open spec fn attributes_of(d: DataView) -> AttributesView {
    AttributesView {
        timestamp: d.timestamp,
        total_time: d.total_time,
        inverter_firmware: d.inverter_firmware,
        hardware_version: d.hardware_version,
        country_code: d.country_code,
        main_inverter_firmware: d.main_inverter_firmware,
        slave_inverter_firmware: d.slave_inverter_firmware,
        year: d.year,
        month: d.month,
        day: d.day,
        hour: d.hour,
        minute: d.minute,
        second: d.second,
    }
}

impl Attributes {
    /// Collects the descriptive readings of `data`.
    pub fn from_data(data: &Data) -> (r: Attributes)
        ensures
            r@ == attributes_of(data@),
    {
        Attributes {
            country_code: data.country_code,
            day: data.day,
            hardware_version: data.hardware_version.clone(),
            hour: data.hour,
            inverter_firmware: data.inverter_firmware.clone(),
            main_inverter_firmware: data.main_inverter_firmware.clone(),
            minute: data.minute,
            month: data.month,
            second: data.second,
            slave_inverter_firmware: data.slave_inverter_firmware.clone(),
            timestamp: data.timestamp,
            total_time: data.total_time,
            year: data.year,
        }
    }
}

/// A sensor entity as announced for discovery.
#[derive(Debug, Clone)]
pub struct Entity {
    pub name: String,
    pub unique_id: String,
    pub object_id: String,
    pub qos: u8,
    pub unit_of_measurement: Option<String>,
    pub state_topic: String,
    pub state_class: Option<String>,
    pub device_class: Option<String>,
    pub device: Device,
    pub json_attributes_topic: String,
}

/// The mathematical value of an [`Entity`].
pub struct EntityView {
    pub name: Seq<char>,
    pub unique_id: Seq<char>,
    pub object_id: Seq<char>,
    pub qos: u8,
    pub unit_of_measurement: Option<Seq<char>>,
    pub state_topic: Seq<char>,
    pub state_class: Option<Seq<char>>,
    pub device_class: Option<Seq<char>>,
    pub device: DeviceView,
    pub json_attributes_topic: Seq<char>,
}

impl View for Entity {
    type V = EntityView;

    open spec fn view(&self) -> EntityView {
        EntityView {
            name: self.name@,
            unique_id: self.unique_id@,
            object_id: self.object_id@,
            qos: self.qos,
            unit_of_measurement: opt_text(self.unit_of_measurement),
            state_topic: self.state_topic@,
            state_class: opt_text(self.state_class),
            device_class: opt_text(self.device_class),
            device: self.device@,
            json_attributes_topic: self.json_attributes_topic@,
        }
    }
}

/// The topic that a sensor's readings are published under.
pub open spec fn state_topic_of(prefix: Seq<char>, name: Seq<char>) -> Seq<char> {
    prefix + "/state/"@ + name
}

/// The topic that a device's attributes are published under.
pub open spec fn attributes_topic_of(prefix: Seq<char>) -> Seq<char> {
    prefix + "/attributes"@
}

/// The topic that a sensor's discovery document is published under.
pub open spec fn discovery_topic_of(identifiers: Seq<char>, name: Seq<char>) -> Seq<char> {
    "homeassistant/sensor/"@ + identifiers + "/"@ + name + "/config"@
}

/// The entity announced for sensor `name` of the device published under
/// `prefix`, with the given unit and classes.
pub open spec fn entity_of(
    name: Seq<char>,
    prefix: Seq<char>,
    device: DeviceView,
    unit: Option<Seq<char>>,
    state_class: Option<Seq<char>>,
    device_class: Option<Seq<char>>,
) -> EntityView {
    EntityView {
        name,
        unique_id: name + "_"@ + prefix,
        object_id: name + "_"@ + prefix,
        qos: 0,
        unit_of_measurement: unit,
        state_topic: state_topic_of(prefix, name),
        state_class,
        device_class,
        device,
        json_attributes_topic: attributes_topic_of(prefix),
    }
}

/// The topic that sensor `name` of the device under `prefix` publishes to.
pub fn state_topic(prefix: &str, name: &str) -> (r: String)
    ensures
        r@ == state_topic_of(prefix@, name@),
{
    concat3(prefix, "/state/", name)
}

/// The topic that the attributes of the device under `prefix` go to.
pub fn attributes_topic(prefix: &str) -> (r: String)
    ensures
        r@ == attributes_topic_of(prefix@),
{
    concat(prefix, "/attributes")
}

/// The topic that the discovery document of sensor `name` goes to.
pub fn discovery_topic(identifiers: &str, name: &str) -> (r: String)
    ensures
        r@ == discovery_topic_of(identifiers@, name@),
{
    let mut s = String::from_str("homeassistant/sensor/");
    s.append(identifiers);
    s.append("/");
    s.append(name);
    s.append("/config");
    s
}

fn some_text(s: &str) -> (r: Option<String>)
    ensures
        opt_text(r) == Some(s@),
{
    Some(String::from_str(s))
}

fn sensor_entity(
    name: String,
    prefix: String,
    device: &Device,
    unit: Option<String>,
    state_class: Option<String>,
    device_class: Option<String>,
) -> (r: Entity)
    ensures
        r@ == entity_of(
            name@,
            prefix@,
            device@,
            opt_text(unit),
            opt_text(state_class),
            opt_text(device_class),
        ),
{
    let id = concat3(name.as_str(), "_", prefix.as_str());
    Entity {
        device: device.duplicate(),
        unique_id: id.clone(),
        object_id: id,
        qos: 0,
        unit_of_measurement: unit,
        state_topic: state_topic(prefix.as_str(), name.as_str()),
        state_class,
        device_class,
        json_attributes_topic: attributes_topic(prefix.as_str()),
        name,
    }
}

impl Entity {
    /// A power sensor, in watts.
    pub fn power_sensor(name: String, prefix: String, device: &Device) -> (r: Entity)
        ensures
            r@ == entity_of(
                name@,
                prefix@,
                device@,
                Some("W"@),
                Some("measurement"@),
                Some("power"@),
            ),
    {
        sensor_entity(
            name,
            prefix,
            device,
            some_text("W"),
            some_text("measurement"),
            some_text("power"),
        )
    }

    /// A temperature sensor, in degrees Celsius.
    pub fn temperature_entity(name: String, prefix: String, device: &Device) -> (r: Entity)
        ensures
            r@ == entity_of(
                name@,
                prefix@,
                device@,
                Some("°C"@),
                Some("measurement"@),
                Some("temperature"@),
            ),
    {
        sensor_entity(
            name,
            prefix,
            device,
            some_text("°C"),
            some_text("measurement"),
            some_text("temperature"),
        )
    }

    /// An energy meter, in kilowatt hours, that only counts up.
    pub fn energy_sensor(name: String, prefix: String, device: &Device) -> (r: Entity)
        ensures
            r@ == entity_of(
                name@,
                prefix@,
                device@,
                Some("kWh"@),
                Some("total_increasing"@),
                Some("energy"@),
            ),
    {
        sensor_entity(
            name,
            prefix,
            device,
            some_text("kWh"),
            some_text("total_increasing"),
            some_text("energy"),
        )
    }

    /// A sensor without unit or device class; a discrete one (a status
    /// code) has no state class either, a continuous one is a measurement.
    pub fn generic_sensor(name: String, prefix: String, device: &Device, discrete: bool) -> (r:
        Entity)
        ensures
            r@ == entity_of(
                name@,
                prefix@,
                device@,
                None,
                if discrete {
                    None
                } else {
                    Some("measurement"@)
                },
                None,
            ),
    {
        let state_class = if discrete {
            None
        } else {
            some_text("measurement")
        };
        sensor_entity(name, prefix, device, None, state_class, None)
    }
}

/// The character of decimal digit `d`.
pub open spec fn digit_char(d: int) -> char {
    if d == 0 {
        '0'
    } else if d == 1 {
        '1'
    } else if d == 2 {
        '2'
    } else if d == 3 {
        '3'
    } else if d == 4 {
        '4'
    } else if d == 5 {
        '5'
    } else if d == 6 {
        '6'
    } else if d == 7 {
        '7'
    } else if d == 8 {
        '8'
    } else {
        '9'
    }
}

/// The decimal digits of `n`, most significant first, without leading zeros.
pub open spec fn decimal(n: nat) -> Seq<char>
    decreases n,
{
    if n < 10 {
        seq![digit_char(n as int)]
    } else {
        decimal(n / 10).push(digit_char((n % 10) as int))
    }
}

/// Relies on the `Display` impl of `u16` (through `to_string`): the decimal
/// digits of the value, with no sign, padding or separators.
#[verifier::external_body]
fn decimal_string(n: u16) -> (r: String)
    ensures
        r@ == decimal(n as nat),
{
    n.to_string()
}

/// A reading to publish, with the sensor name it goes under.
#[derive(Debug, Clone)]
pub enum EntityType {
    PowerSensor { name: String, value: u32 },
    TemperatureSensor { name: String, value: Scaled },
    EnergySensor { name: String, value: Scaled },
    GenericSensor { name: String, value: Scaled },
    GenericDiscreteSensor { name: String, value: String },
}

/// The mathematical value of an [`EntityType`].
pub enum EntityTypeView {
    PowerSensor { name: Seq<char>, value: u32 },
    TemperatureSensor { name: Seq<char>, value: Scaled },
    EnergySensor { name: Seq<char>, value: Scaled },
    GenericSensor { name: Seq<char>, value: Scaled },
    GenericDiscreteSensor { name: Seq<char>, value: Seq<char> },
}

impl View for EntityType {
    type V = EntityTypeView;

    open spec fn view(&self) -> EntityTypeView {
        match self {
            EntityType::PowerSensor { name, value } => EntityTypeView::PowerSensor {
                name: name@,
                value: *value,
            },
            EntityType::TemperatureSensor { name, value } => EntityTypeView::TemperatureSensor {
                name: name@,
                value: *value,
            },
            EntityType::EnergySensor { name, value } => EntityTypeView::EnergySensor {
                name: name@,
                value: *value,
            },
            EntityType::GenericSensor { name, value } => EntityTypeView::GenericSensor {
                name: name@,
                value: *value,
            },
            EntityType::GenericDiscreteSensor { name, value } =>
                EntityTypeView::GenericDiscreteSensor { name: name@, value: value@ },
        }
    }
}

impl EntityTypeView {
    /// The sensor name of a reading.
    pub open spec fn name(self) -> Seq<char> {
        match self {
            EntityTypeView::PowerSensor { name, .. } => name,
            EntityTypeView::TemperatureSensor { name, .. } => name,
            EntityTypeView::EnergySensor { name, .. } => name,
            EntityTypeView::GenericSensor { name, .. } => name,
            EntityTypeView::GenericDiscreteSensor { name, .. } => name,
        }
    }
}

impl EntityType {
    /// The sensor name of a reading.
    pub fn name(&self) -> (r: &String)
        ensures
            r@ == self@.name(),
    {
        match self {
            EntityType::PowerSensor { name, .. } => name,
            EntityType::TemperatureSensor { name, .. } => name,
            EntityType::EnergySensor { name, .. } => name,
            EntityType::GenericSensor { name, .. } => name,
            EntityType::GenericDiscreteSensor { name, .. } => name,
        }
    }
}

/// The readings published for a telemetry sample, in publishing order.
pub open spec fn entities_of(d: DataView) -> Seq<EntityTypeView> {
    seq![
        EntityTypeView::PowerSensor { name: "current_power"@, value: d.current_power },
        EntityTypeView::EnergySensor { name: "daily_energy"@, value: d.daily_energy },
        EntityTypeView::TemperatureSensor {
            name: "inverter_temperature"@,
            value: d.inverter_temperature,
        },
        EntityTypeView::GenericDiscreteSensor {
            name: "inverter_status"@,
            value: decimal(d.inverter_status as nat),
        },
        EntityTypeView::EnergySensor { name: "total_energy"@, value: d.total_energy },
    ]
}

/// The readings of `data` to publish: current power, daily energy, inverter
/// temperature, inverter status (as decimal text) and total energy.
pub fn entities_from_data(data: &Data) -> (r: Vec<EntityType>)
    ensures
        r@.map_values(|e: EntityType| e@) == entities_of(data@),
{
    let mut r: Vec<EntityType> = Vec::with_capacity(5);
    r.push(
        EntityType::PowerSensor {
            name: String::from_str("current_power"),
            value: data.current_power,
        },
    );
    r.push(
        EntityType::EnergySensor {
            name: String::from_str("daily_energy"),
            value: data.daily_energy,
        },
    );
    r.push(
        EntityType::TemperatureSensor {
            name: String::from_str("inverter_temperature"),
            value: data.inverter_temperature,
        },
    );
    r.push(
        EntityType::GenericDiscreteSensor {
            name: String::from_str("inverter_status"),
            value: decimal_string(data.inverter_status),
        },
    );
    r.push(
        EntityType::EnergySensor {
            name: String::from_str("total_energy"),
            value: data.total_energy,
        },
    );
    assert(r@.map_values(|e: EntityType| e@) =~= entities_of(data@));
    r
}

/// The discovery entity announced for a reading: a power, energy or
/// temperature sensor after its kind, and a generic sensor otherwise.
pub open spec fn discovery_entity_of(e: EntityTypeView, prefix: Seq<char>, device: DeviceView) -> EntityView {
    match e {
        EntityTypeView::PowerSensor { name, .. } => entity_of(
            name,
            prefix,
            device,
            Some("W"@),
            Some("measurement"@),
            Some("power"@),
        ),
        EntityTypeView::TemperatureSensor { name, .. } => entity_of(
            name,
            prefix,
            device,
            Some("°C"@),
            Some("measurement"@),
            Some("temperature"@),
        ),
        EntityTypeView::EnergySensor { name, .. } => entity_of(
            name,
            prefix,
            device,
            Some("kWh"@),
            Some("total_increasing"@),
            Some("energy"@),
        ),
        EntityTypeView::GenericSensor { name, .. } => entity_of(
            name,
            prefix,
            device,
            None,
            Some("measurement"@),
            None,
        ),
        EntityTypeView::GenericDiscreteSensor { name, .. } => entity_of(
            name,
            prefix,
            device,
            None,
            None,
            None,
        ),
    }
}

/// The discovery entity announced for `entity` of the device under `prefix`.
pub fn discovery_entity(entity: &EntityType, prefix: &String, device: &Device) -> (r: Entity)
    ensures
        r@ == discovery_entity_of(entity@, prefix@, device@),
{
    let name = entity.name().clone();
    let prefix = prefix.clone();
    match entity {
        EntityType::PowerSensor { .. } => Entity::power_sensor(name, prefix, device),
        EntityType::TemperatureSensor { .. } => Entity::temperature_entity(name, prefix, device),
        EntityType::EnergySensor { .. } => Entity::energy_sensor(name, prefix, device),
        EntityType::GenericSensor { .. } => Entity::generic_sensor(name, prefix, device, false),
        EntityType::GenericDiscreteSensor { .. } => Entity::generic_sensor(
            name,
            prefix,
            device,
            true,
        ),
    }
}

} // verus!
