//! The metadata that names a kernel service and carries its binary.
//!
//! A [`DriverBuilder`] collects four fields in any order.  `build` checks them
//! and hands out a [`DriverDescriptor`], which has no setters: what was built
//! is what every later read returns.

use vstd::prelude::*;

verus! {

/// Longest service name the service-control manager stores.
pub const MAX_SERVICE_NAME_LEN: usize = 256;

/// The two characters that may not occur in a service name.
pub open spec fn is_path_separator(c: char) -> bool {
    c == '/' || c == '\\'
}

/// A name the service-control manager accepts: between one and
/// `MAX_SERVICE_NAME_LEN` characters, none of them a slash or a backslash.
pub open spec fn valid_service_name(name: Seq<char>) -> bool {
    &&& 0 < name.len() <= MAX_SERVICE_NAME_LEN
    &&& forall|i: int| 0 <= i < name.len() ==> !is_path_separator(#[trigger] name[i])
}

/// Why a builder could not produce a descriptor.
#[derive(Clone, Copy, Debug, PartialEq, Eq)]
pub enum ValidationError {
    /// No description was set, or an empty one.
    MissingDescription,
    /// No device id was set, or an empty one.
    MissingDeviceId,
    /// No device type was set.
    MissingDeviceType,
    /// No driver binary was set, or an empty one.
    MissingBinary,
    /// The device id cannot serve as a service name.
    InvalidDeviceId,
}

/// What a descriptor holds, as mathematical values.
pub struct DescriptorModel {
    pub description: Seq<char>,
    pub device_id: Seq<char>,
    pub device_type: u32,
    pub binary: Seq<u8>,
}

impl DescriptorModel {
    /// Every field is present and the device id is a service name.
    pub open spec fn valid(self) -> bool {
        &&& self.description.len() > 0
        &&& valid_service_name(self.device_id)
        &&& self.binary.len() > 0
    }
}

/// What a builder has been given so far.
pub struct BuilderModel {
    pub description: Option<Seq<char>>,
    pub device_id: Option<Seq<char>>,
    pub device_type: Option<u32>,
    pub binary: Option<Seq<u8>>,
}

impl BuilderModel {
    /// A builder that has been given nothing.
    pub open spec fn empty() -> Self {
        BuilderModel { description: None, device_id: None, device_type: None, binary: None }
    }

    /// The first complaint about the fields, taken in the order description,
    /// device id, device type, binary, and then the device id's spelling.
    pub open spec fn complaint(self) -> Option<ValidationError> {
        if self.description is None || self.description->0.len() == 0 {
            Some(ValidationError::MissingDescription)
        } else if self.device_id is None || self.device_id->0.len() == 0 {
            Some(ValidationError::MissingDeviceId)
        } else if self.device_type is None {
            Some(ValidationError::MissingDeviceType)
        } else if self.binary is None || self.binary->0.len() == 0 {
            Some(ValidationError::MissingBinary)
        } else if !valid_service_name(self.device_id->0) {
            Some(ValidationError::InvalidDeviceId)
        } else {
            None
        }
    }

    /// The descriptor that a complete builder stands for.
    pub open spec fn descriptor(self) -> DescriptorModel {
        DescriptorModel {
            description: self.description->0,
            device_id: self.device_id->0,
            device_type: self.device_type->0,
            binary: self.binary->0,
        }
    }
}

/// A builder yields a descriptor exactly when every field is set, neither
/// text nor the binary is empty, and the device id is a service name.  With
/// any one field unset it yields a [`ValidationError`]; where it yields a
/// descriptor, the descriptor holds the four fields as they were set.
pub proof fn lemma_build_needs_every_field(builder: BuilderModel)
    ensures
        builder.description is None || builder.device_id is None || builder.device_type is None
            || builder.binary is None ==> builder.complaint() is Some,
        builder.complaint() is None <==> ({
            &&& builder.description matches Some(text) && text.len() > 0
            &&& builder.device_id matches Some(id) && valid_service_name(id)
            &&& builder.device_type is Some
            &&& builder.binary matches Some(bytes) && bytes.len() > 0
        }),
        builder.complaint() is None ==> ({
            &&& builder.descriptor().valid()
            &&& Some(builder.descriptor().description) == builder.description
            &&& Some(builder.descriptor().device_id) == builder.device_id
            &&& Some(builder.descriptor().device_type) == builder.device_type
            &&& Some(builder.descriptor().binary) == builder.binary
        }),
{
}

/// Immutable metadata of one kernel service.
#[derive(Debug, PartialEq, Eq)]
pub struct DriverDescriptor {
    description: String,
    device_id: String,
    device_type: u32,
    binary: Vec<u8>,
}

impl View for DriverDescriptor {
    type V = DescriptorModel;

    closed spec fn view(&self) -> DescriptorModel {
        DescriptorModel {
            description: self.description@,
            device_id: self.device_id@,
            device_type: self.device_type,
            binary: self.binary@,
        }
    }
}

impl DriverDescriptor {
    /// A descriptor only ever holds what `build` accepted.
    #[verifier::type_invariant]
    pub open spec fn well_formed(&self) -> bool {
        self@.valid()
    }

    /// The human-readable description.
    pub fn description(&self) -> (text: &str)
        ensures
            text@ == self@.description,
            text@.len() > 0,
    {
        proof {
            use_type_invariant(self);
        }
        self.description.as_str()
    }

    /// The unique identifier, which doubles as the service name.
    pub fn device_id(&self) -> (id: &str)
        ensures
            id@ == self@.device_id,
            valid_service_name(id@),
    {
        proof {
            use_type_invariant(self);
        }
        self.device_id.as_str()
    }

    /// The tag of the device class.
    pub fn device_type(&self) -> (tag: u32)
        ensures
            tag == self@.device_type,
    {
        self.device_type
    }

    /// The bytes of the privileged binary.
    pub fn binary(&self) -> (bytes: &[u8])
        ensures
            bytes@ == self@.binary,
            bytes@.len() > 0,
    {
        proof {
            use_type_invariant(self);
        }
        self.binary.as_slice()
    }
}

/// Collects the fields of a descriptor.
#[derive(Debug)]
pub struct DriverBuilder {
    description: Option<String>,
    device_id: Option<String>,
    device_type: Option<u32>,
    binary: Option<Vec<u8>>,
}

impl View for DriverBuilder {
    type V = BuilderModel;

    closed spec fn view(&self) -> BuilderModel {
        BuilderModel {
            description: match self.description {
                Some(text) => Some(text@),
                None => None,
            },
            device_id: match self.device_id {
                Some(id) => Some(id@),
                None => None,
            },
            device_type: self.device_type,
            binary: match self.binary {
                Some(bytes) => Some(bytes@),
                None => None,
            },
        }
    }
}

impl DriverBuilder {
    /// A builder with every field unset.
    pub fn new() -> (builder: Self)
        ensures
            builder@ == BuilderModel::empty(),
    {
        DriverBuilder { description: None, device_id: None, device_type: None, binary: None }
    }

    /// Sets the description, replacing an earlier one.
    pub fn set_device_description(self, description: &str) -> (builder: Self)
        ensures
            builder@ == (BuilderModel { description: Some(description@), ..self@ }),
    {
        DriverBuilder {
            description: Some(String::from_str(description)),
            device_id: self.device_id,
            device_type: self.device_type,
            binary: self.binary,
        }
    }

    /// Sets the device id, replacing an earlier one.
    pub fn set_device_id(self, device_id: &str) -> (builder: Self)
        ensures
            builder@ == (BuilderModel { device_id: Some(device_id@), ..self@ }),
    {
        DriverBuilder {
            description: self.description,
            device_id: Some(String::from_str(device_id)),
            device_type: self.device_type,
            binary: self.binary,
        }
    }

    /// Sets the device type, replacing an earlier one.
    pub fn set_device_type(self, device_type: u32) -> (builder: Self)
        ensures
            builder@ == (BuilderModel { device_type: Some(device_type), ..self@ }),
    {
        DriverBuilder {
            description: self.description,
            device_id: self.device_id,
            device_type: Some(device_type),
            binary: self.binary,
        }
    }

    /// Sets the driver binary, replacing an earlier one.
    pub fn set_driver_bin(self, binary: Vec<u8>) -> (builder: Self)
        ensures
            builder@ == (BuilderModel { binary: Some(binary@), ..self@ }),
    {
        DriverBuilder {
            description: self.description,
            device_id: self.device_id,
            device_type: self.device_type,
            binary: Some(binary),
        }
    }

    /// Checks the fields and freezes them into a descriptor.
    ///
    /// Fails with the first complaint of [`BuilderModel::complaint`]; succeeds
    /// exactly when there is none, with the fields as they were set.
    pub fn build(self) -> (built: Result<DriverDescriptor, ValidationError>)
        ensures
            (match self@.complaint() {
                Some(error) => built == Err::<DriverDescriptor, ValidationError>(error),
                None => built is Ok && built->Ok_0@ == self@.descriptor() && built->Ok_0@.valid(),
            }),
    {
        let description = match self.description {
            Some(text) => text,
            None => { return Err(ValidationError::MissingDescription); },
        };
        if description.as_str().unicode_len() == 0 {
            return Err(ValidationError::MissingDescription);
        }
        let device_id = match self.device_id {
            Some(id) => id,
            None => { return Err(ValidationError::MissingDeviceId); },
        };
        if device_id.as_str().unicode_len() == 0 {
            return Err(ValidationError::MissingDeviceId);
        }
        let device_type = match self.device_type {
            Some(tag) => tag,
            None => { return Err(ValidationError::MissingDeviceType); },
        };
        let binary = match self.binary {
            Some(bytes) => bytes,
            None => { return Err(ValidationError::MissingBinary); },
        };
        if binary.len() == 0 {
            return Err(ValidationError::MissingBinary);
        }
        if !is_service_name(device_id.as_str()) {
            return Err(ValidationError::InvalidDeviceId);
        }
        Ok(DriverDescriptor { description, device_id, device_type, binary })
    }
}

/// Decides whether `name` can be registered as a service name.
pub fn is_service_name(name: &str) -> (ok: bool)
    ensures
        ok == valid_service_name(name@),
{
    let len: usize = name.unicode_len();
    if len == 0 || len > MAX_SERVICE_NAME_LEN {
        return false;
    }
    let mut at: usize = 0;
    while at < len
        invariant
            at <= len,
            len == name@.len(),
            forall|i: int| 0 <= i < at ==> !is_path_separator(#[trigger] name@[i]),
        decreases len - at,
    {
        let c: char = name.get_char(at);
        if c == '/' || c == '\\' {
            return false;
        }
        at = at + 1;
    }
    true
}

} // verus!
