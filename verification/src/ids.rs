//! Identifiers: each one is a string, compared and ordered by its characters.
use vstd::prelude::*;
verus! {

/// Identifier of a collection of synchronized objects.
#[derive(Debug, PartialOrd, Ord, Hash)]
pub struct CollectionId(String);

impl View for CollectionId {
    type V = Seq<char>;

    closed spec fn view(&self) -> Seq<char> {
        self.0@
    }
}

impl CollectionId {
    /// The identifier's text.
    pub fn as_str(&self) -> (res: &str)
        ensures
            res@ == self@,
    {
        self.0.as_str()
    }
}

impl From<&str> for CollectionId {
    fn from(value: &str) -> (res: Self)
        ensures
            res@ == value@,
    {
        CollectionId(value.to_owned())
    }
}

impl vstd::std_specs::convert::FromSpecImpl<&str> for CollectionId {
    open spec fn obeys_from_spec() -> bool {
        false
    }

    open spec fn from_spec(v: &str) -> CollectionId {
        arbitrary()
    }
}

impl From<String> for CollectionId {
    fn from(value: String) -> (res: Self)
        ensures
            res@ == value@,
    {
        CollectionId(value)
    }
}

impl vstd::std_specs::convert::FromSpecImpl<String> for CollectionId {
    open spec fn obeys_from_spec() -> bool {
        false
    }

    open spec fn from_spec(v: String) -> CollectionId {
        arbitrary()
    }
}

impl Clone for CollectionId {
    fn clone(&self) -> (res: Self)
        ensures
            res@ == self@,
    {
        CollectionId(self.0.clone())
    }
}

impl PartialEq for CollectionId {
    fn eq(&self, other: &Self) -> (res: bool) {
        self.0 == other.0
    }
}

impl Eq for CollectionId {}

impl vstd::std_specs::cmp::PartialEqSpecImpl for CollectionId {
    open spec fn obeys_eq_spec() -> bool {
        true
    }

    open spec fn eq_spec(&self, other: &CollectionId) -> bool {
        self@ == other@
    }
}

/// Identifier of a device.
#[derive(Debug, PartialOrd, Ord, Hash)]
pub struct DeviceId(String);

impl View for DeviceId {
    type V = Seq<char>;

    closed spec fn view(&self) -> Seq<char> {
        self.0@
    }
}

impl DeviceId {
    /// The identifier's text.
    pub fn as_str(&self) -> (res: &str)
        ensures
            res@ == self@,
    {
        self.0.as_str()
    }
}

impl From<&str> for DeviceId {
    fn from(value: &str) -> (res: Self)
        ensures
            res@ == value@,
    {
        DeviceId(value.to_owned())
    }
}

impl vstd::std_specs::convert::FromSpecImpl<&str> for DeviceId {
    open spec fn obeys_from_spec() -> bool {
        false
    }

    open spec fn from_spec(v: &str) -> DeviceId {
        arbitrary()
    }
}

impl From<String> for DeviceId {
    fn from(value: String) -> (res: Self)
        ensures
            res@ == value@,
    {
        DeviceId(value)
    }
}

impl vstd::std_specs::convert::FromSpecImpl<String> for DeviceId {
    open spec fn obeys_from_spec() -> bool {
        false
    }

    open spec fn from_spec(v: String) -> DeviceId {
        arbitrary()
    }
}

impl Clone for DeviceId {
    fn clone(&self) -> (res: Self)
        ensures
            res@ == self@,
    {
        DeviceId(self.0.clone())
    }
}

impl PartialEq for DeviceId {
    fn eq(&self, other: &Self) -> (res: bool) {
        self.0 == other.0
    }
}

impl Eq for DeviceId {}

impl vstd::std_specs::cmp::PartialEqSpecImpl for DeviceId {
    open spec fn obeys_eq_spec() -> bool {
        true
    }

    open spec fn eq_spec(&self, other: &DeviceId) -> bool {
        self@ == other@
    }
}

/// Identifier of a object inside a collection.
#[derive(Debug, PartialOrd, Ord, Hash)]
pub struct ObjectId(String);

impl View for ObjectId {
    type V = Seq<char>;

    closed spec fn view(&self) -> Seq<char> {
        self.0@
    }
}

impl ObjectId {
    /// The identifier's text.
    pub fn as_str(&self) -> (res: &str)
        ensures
            res@ == self@,
    {
        self.0.as_str()
    }
}

impl From<&str> for ObjectId {
    fn from(value: &str) -> (res: Self)
        ensures
            res@ == value@,
    {
        ObjectId(value.to_owned())
    }
}

impl vstd::std_specs::convert::FromSpecImpl<&str> for ObjectId {
    open spec fn obeys_from_spec() -> bool {
        false
    }

    open spec fn from_spec(v: &str) -> ObjectId {
        arbitrary()
    }
}

impl From<String> for ObjectId {
    fn from(value: String) -> (res: Self)
        ensures
            res@ == value@,
    {
        ObjectId(value)
    }
}

impl vstd::std_specs::convert::FromSpecImpl<String> for ObjectId {
    open spec fn obeys_from_spec() -> bool {
        false
    }

    open spec fn from_spec(v: String) -> ObjectId {
        arbitrary()
    }
}

impl Clone for ObjectId {
    fn clone(&self) -> (res: Self)
        ensures
            res@ == self@,
    {
        ObjectId(self.0.clone())
    }
}

impl PartialEq for ObjectId {
    fn eq(&self, other: &Self) -> (res: bool) {
        self.0 == other.0
    }
}

impl Eq for ObjectId {}

impl vstd::std_specs::cmp::PartialEqSpecImpl for ObjectId {
    open spec fn obeys_eq_spec() -> bool {
        true
    }

    open spec fn eq_spec(&self, other: &ObjectId) -> bool {
        self@ == other@
    }
}

/// Identifier of a peer on the network.
#[derive(Debug, PartialOrd, Ord, Hash)]
pub struct PeerId(String);

impl View for PeerId {
    type V = Seq<char>;

    closed spec fn view(&self) -> Seq<char> {
        self.0@
    }
}

impl PeerId {
    /// The identifier's text.
    pub fn as_str(&self) -> (res: &str)
        ensures
            res@ == self@,
    {
        self.0.as_str()
    }
}

impl From<&str> for PeerId {
    fn from(value: &str) -> (res: Self)
        ensures
            res@ == value@,
    {
        PeerId(value.to_owned())
    }
}

impl vstd::std_specs::convert::FromSpecImpl<&str> for PeerId {
    open spec fn obeys_from_spec() -> bool {
        false
    }

    open spec fn from_spec(v: &str) -> PeerId {
        arbitrary()
    }
}

impl From<String> for PeerId {
    fn from(value: String) -> (res: Self)
        ensures
            res@ == value@,
    {
        PeerId(value)
    }
}

impl vstd::std_specs::convert::FromSpecImpl<String> for PeerId {
    open spec fn obeys_from_spec() -> bool {
        false
    }

    open spec fn from_spec(v: String) -> PeerId {
        arbitrary()
    }
}

impl Clone for PeerId {
    fn clone(&self) -> (res: Self)
        ensures
            res@ == self@,
    {
        PeerId(self.0.clone())
    }
}

impl PartialEq for PeerId {
    fn eq(&self, other: &Self) -> (res: bool) {
        self.0 == other.0
    }
}

impl Eq for PeerId {}

impl vstd::std_specs::cmp::PartialEqSpecImpl for PeerId {
    open spec fn obeys_eq_spec() -> bool {
        true
    }

    open spec fn eq_spec(&self, other: &PeerId) -> bool {
        self@ == other@
    }
}

/// Identifier of a transport session.
#[derive(Debug, PartialOrd, Ord, Hash)]
pub struct SessionId(String);

impl View for SessionId {
    type V = Seq<char>;

    closed spec fn view(&self) -> Seq<char> {
        self.0@
    }
}

impl SessionId {
    /// The identifier's text.
    pub fn as_str(&self) -> (res: &str)
        ensures
            res@ == self@,
    {
        self.0.as_str()
    }
}

impl From<&str> for SessionId {
    fn from(value: &str) -> (res: Self)
        ensures
            res@ == value@,
    {
        SessionId(value.to_owned())
    }
}

impl vstd::std_specs::convert::FromSpecImpl<&str> for SessionId {
    open spec fn obeys_from_spec() -> bool {
        false
    }

    open spec fn from_spec(v: &str) -> SessionId {
        arbitrary()
    }
}

impl From<String> for SessionId {
    fn from(value: String) -> (res: Self)
        ensures
            res@ == value@,
    {
        SessionId(value)
    }
}

impl vstd::std_specs::convert::FromSpecImpl<String> for SessionId {
    open spec fn obeys_from_spec() -> bool {
        false
    }

    open spec fn from_spec(v: String) -> SessionId {
        arbitrary()
    }
}

impl Clone for SessionId {
    fn clone(&self) -> (res: Self)
        ensures
            res@ == self@,
    {
        SessionId(self.0.clone())
    }
}

impl PartialEq for SessionId {
    fn eq(&self, other: &Self) -> (res: bool) {
        self.0 == other.0
    }
}

impl Eq for SessionId {}

impl vstd::std_specs::cmp::PartialEqSpecImpl for SessionId {
    open spec fn obeys_eq_spec() -> bool {
        true
    }

    open spec fn eq_spec(&self, other: &SessionId) -> bool {
        self@ == other@
    }
}

/// Identifier of a user account that owns devices.
#[derive(Debug, PartialOrd, Ord, Hash)]
pub struct UserId(String);

impl View for UserId {
    type V = Seq<char>;

    closed spec fn view(&self) -> Seq<char> {
        self.0@
    }
}

impl UserId {
    /// The identifier's text.
    pub fn as_str(&self) -> (res: &str)
        ensures
            res@ == self@,
    {
        self.0.as_str()
    }
}

impl From<&str> for UserId {
    fn from(value: &str) -> (res: Self)
        ensures
            res@ == value@,
    {
        UserId(value.to_owned())
    }
}

impl vstd::std_specs::convert::FromSpecImpl<&str> for UserId {
    open spec fn obeys_from_spec() -> bool {
        false
    }

    open spec fn from_spec(v: &str) -> UserId {
        arbitrary()
    }
}

impl From<String> for UserId {
    fn from(value: String) -> (res: Self)
        ensures
            res@ == value@,
    {
        UserId(value)
    }
}

impl vstd::std_specs::convert::FromSpecImpl<String> for UserId {
    open spec fn obeys_from_spec() -> bool {
        false
    }

    open spec fn from_spec(v: String) -> UserId {
        arbitrary()
    }
}

impl Clone for UserId {
    fn clone(&self) -> (res: Self)
        ensures
            res@ == self@,
    {
        UserId(self.0.clone())
    }
}

impl PartialEq for UserId {
    fn eq(&self, other: &Self) -> (res: bool) {
        self.0 == other.0
    }
}

impl Eq for UserId {}

impl vstd::std_specs::cmp::PartialEqSpecImpl for UserId {
    open spec fn obeys_eq_spec() -> bool {
        true
    }

    open spec fn eq_spec(&self, other: &UserId) -> bool {
        self@ == other@
    }
}

} // verus!
