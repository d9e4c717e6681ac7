//! The settings tree and its scoped addressing.
//!
//! An [`InstallSettings`] value is a root record with one optional section per
//! domain (users, software, storage).  An absent section means "not loaded /
//! not specified by this operation", never "loaded and empty"; writing any
//! field of a domain implicitly creates the section and thereby marks the
//! whole domain as present for the purposes of a later store.
//!
//! Fields are addressed by dotted paths (`"storage.lvm"`): [`resolve`] splits
//! a path at the first `.` and maps the left segment onto the closed [`Scope`]
//! enumeration.  `set` replaces a scalar field, `add` appends one element to a
//! collection field, and `merge` overlays another tree: a scalar that the
//! overlay defines wins, a scalar it leaves out keeps the receiver's value,
//! and a collection is replaced as a whole whenever the overlay defines its
//! domain.  A failed `set` or `add` leaves the tree entirely unchanged.

use vstd::prelude::*;
use vstd::string::*;

use crate::attributes::{spec_to_bool, AttributeValue, Attributes};
use crate::error::{ConversionError, ErrorView, PathError, SettingsError};
use crate::settings::{spec_lookup, SettingObject};
use crate::text::{spec_split_once, split_once_char, str_eq};

verus! {

// ------------------------------------------------------------------
// Scopes and path resolution
// ------------------------------------------------------------------

/// The closed enumeration of settings domains; a scope limits which domains a
/// load or store touches.
#[derive(Clone, Copy, Debug, PartialEq, Eq, Structural)]
pub enum Scope {
    /// User settings
    Users,
    /// Software settings
    Software,
    /// Storage settings
    Storage,
}

/// Every known scope, in a fixed order.
pub open spec fn spec_all_scopes() -> Seq<Scope> {
    seq![Scope::Software, Scope::Storage, Scope::Users]
}

/// The scope a domain name denotes, matched case-sensitively.
pub open spec fn spec_scope_of(name: Seq<char>) -> Option<Scope> {
    if name == "users"@ {
        Some(Scope::Users)
    } else if name == "software"@ {
        Some(Scope::Software)
    } else if name == "storage"@ {
        Some(Scope::Storage)
    } else {
        None
    }
}

impl Scope {
    /// Returns the known scopes.
    pub fn all() -> (r: Vec<Scope>)
        ensures
            r@ == spec_all_scopes(),
    {
        let scopes = vec![Scope::Software, Scope::Storage, Scope::Users];
        proof {
            assert(scopes@ =~= spec_all_scopes());
        }
        scopes
    }

    /// Maps a domain name to its scope; unknown names are rejected.
    pub fn from_name(name: &str) -> (r: Result<Scope, PathError>)
        ensures
            match r {
                Ok(scope) => spec_scope_of(name@) == Some(scope),
                Err(e) => spec_scope_of(name@) is None && e == PathError::UnknownScope,
            },
    {
        if str_eq(name, "users") {
            Ok(Scope::Users)
        } else if str_eq(name, "software") {
            Ok(Scope::Software)
        } else if str_eq(name, "storage") {
            Ok(Scope::Storage)
        } else {
            Err(PathError::UnknownScope)
        }
    }
}

/// Resolution of a dotted path into a scope and a field name: the path is
/// split at its first `.`; no `.` at all is malformed, and a left segment
/// outside the closed scope set is unknown.
pub open spec fn spec_resolve(path: Seq<char>) -> Result<(Scope, Seq<char>), ErrorView> {
    match spec_split_once(path, '.') {
        None => Err(ErrorView::Malformed),
        Some((domain, field)) => match spec_scope_of(domain) {
            Some(scope) => Ok((scope, field)),
            None => Err(ErrorView::UnknownScope),
        },
    }
}

/// Splits a dotted path into its scope and field name.
pub fn resolve<'a>(path: &'a str) -> (r: Result<(Scope, &'a str), PathError>)
    ensures
        match r {
            Ok(pair) => spec_resolve(path@) == Ok::<(Scope, Seq<char>), ErrorView>(
                (pair.0, pair.1@),
            ),
            Err(e) => spec_resolve(path@) == Err::<(Scope, Seq<char>), ErrorView>(e@),
        },
{
    match split_once_char(path, '.') {
        None => Err(PathError::Malformed),
        Some((domain, field)) => match Scope::from_name(domain) {
            Ok(scope) => Ok((scope, field)),
            Err(e) => Err(e),
        },
    }
}

// ------------------------------------------------------------------
// The mathematical model of the tree
// ------------------------------------------------------------------

/// Ghost form of the user section.
#[verifier::ext_equal]
pub struct UserSettingsView {
    pub full_name: Option<Seq<char>>,
    pub user_name: Option<Seq<char>>,
    pub password: Option<Seq<char>>,
    pub autologin: Option<bool>,
}

/// Ghost form of the software section.
#[verifier::ext_equal]
pub struct SoftwareSettingsView {
    pub product: Option<Seq<char>>,
}

/// Ghost form of the storage section; a device is modelled by its name.
#[verifier::ext_equal]
pub struct StorageSettingsView {
    pub lvm: Option<bool>,
    pub encryption_password: Option<Seq<char>>,
    pub devices: Seq<Seq<char>>,
}

/// Ghost form of the whole settings tree.
#[verifier::ext_equal]
pub struct InstallSettingsView {
    pub user: Option<UserSettingsView>,
    pub software: Option<SoftwareSettingsView>,
    pub storage: Option<StorageSettingsView>,
}

/// The user section every field of which is absent.
pub open spec fn spec_user_default() -> UserSettingsView {
    UserSettingsView { full_name: None, user_name: None, password: None, autologin: None }
}

/// The software section every field of which is absent.
pub open spec fn spec_software_default() -> SoftwareSettingsView {
    SoftwareSettingsView { product: None }
}

/// The storage section every scalar of which is absent and whose device list
/// is empty.
pub open spec fn spec_storage_default() -> StorageSettingsView {
    StorageSettingsView { lvm: None, encryption_password: None, devices: Seq::empty() }
}

/// The tree every domain of which is absent.
pub open spec fn spec_tree_default() -> InstallSettingsView {
    InstallSettingsView { user: None, software: None, storage: None }
}

// ------------------------------------------------------------------
// Collection elements
// ------------------------------------------------------------------

/// A device to use in the installation.
#[derive(Debug)]
pub struct Device {
    /// Device name (e.g., "/dev/sda")
    pub name: String,
}

impl View for Device {
    type V = Seq<char>;

    open spec fn view(&self) -> Seq<char> {
        self.name@
    }
}

impl DeepView for Device {
    type V = Seq<char>;

    open spec fn deep_view(&self) -> Seq<char> {
        self.name@
    }
}

/// The device an object denotes: the raw value under its required `name` key.
pub open spec fn spec_device_from(obj: Seq<(Seq<char>, Seq<char>)>) -> Result<Seq<char>, ErrorView> {
    match spec_lookup(obj, "name"@) {
        Some(name) => Ok(name),
        None => Err(ErrorView::MissingKey("name"@)),
    }
}

impl Device {
    /// Materialises a device from a raw object; the `name` key is required,
    /// extra keys are ignored.
    pub fn from_object(obj: &SettingObject) -> (r: Result<Device, ConversionError>)
        ensures
            match spec_device_from(obj@) {
                Ok(name) => r matches Ok(d) && d@ == name,
                Err(e) => r matches Err(err) && err@ == e,
            },
    {
        match obj.get("name") {
            Some(value) => Ok(Device { name: value.0.clone() }),
            None => Err(ConversionError::MissingKey(String::from_str("name"))),
        }
    }
}

impl TryFrom<SettingObject> for Device {
    type Error = ConversionError;

    fn try_from(value: SettingObject) -> Result<Device, ConversionError> {
        Device::from_object(&value)
    }
}

impl vstd::std_specs::convert::TryFromSpecImpl<SettingObject> for Device {
    open spec fn obeys_try_from_spec() -> bool {
        false
    }

    open spec fn try_from_spec(v: SettingObject) -> Result<Device, ConversionError> {
        arbitrary()
    }
}

/// Copies a device list element by element.
fn copy_devices(devices: &Vec<Device>) -> (r: Vec<Device>)
    ensures
        r.deep_view() == devices.deep_view(),
{
    let mut out: Vec<Device> = Vec::new();
    let mut i: usize = 0;
    while i < devices.len()
        invariant
            i <= devices@.len(),
            out@.len() == i,
            forall|j: int| 0 <= j < i ==> out@[j].name == devices@[j].name,
        decreases devices@.len() - i,
    {
        out.push(Device { name: devices[i].name.clone() });
        i += 1;
    }
    proof {
        assert forall|j: int| 0 <= j < devices@.len() implies out.deep_view()[j]
            == devices.deep_view()[j] by {
            assert(out.deep_view()[j] == out@[j].deep_view());
            assert(devices.deep_view()[j] == devices@[j].deep_view());
        }
        assert(out.deep_view() =~= devices.deep_view());
    }
    out
}

/// Appends one device, relating the deep views.
fn push_device(devices: &mut Vec<Device>, device: Device)
    ensures
        final(devices).deep_view() == old(devices).deep_view().push(device@),
{
    let ghost dv = device@;
    devices.push(device);
    proof {
        assert forall|j: int| 0 <= j < devices.deep_view().len() implies devices.deep_view()[j]
            == old(devices).deep_view().push(dv)[j] by {
            assert(devices.deep_view()[j] == devices@[j].deep_view());
            if j < old(devices)@.len() {
                assert(old(devices).deep_view()[j] == old(devices)@[j].deep_view());
            }
        }
        assert(devices.deep_view() =~= old(devices).deep_view().push(dv));
    }
}

// ------------------------------------------------------------------
// Domain sections
// ------------------------------------------------------------------

/// What a `set` of one field does to the user section.
pub open spec fn spec_user_set(
    u: UserSettingsView,
    attr: Seq<char>,
    value: Seq<char>,
) -> Result<UserSettingsView, ErrorView> {
    if attr == "full_name"@ {
        Ok(UserSettingsView { full_name: Some(value), ..u })
    } else if attr == "user_name"@ {
        Ok(UserSettingsView { user_name: Some(value), ..u })
    } else if attr == "password"@ {
        Ok(UserSettingsView { password: Some(value), ..u })
    } else if attr == "autologin"@ {
        match spec_to_bool(value) {
            Some(b) => Ok(UserSettingsView { autologin: Some(b), ..u }),
            None => Err(ErrorView::InvalidFormat),
        }
    } else {
        Err(ErrorView::UnknownAttribute)
    }
}

/// The overlay of `b` over `a`: a scalar `b` defines wins.
pub open spec fn spec_user_merge(a: UserSettingsView, b: UserSettingsView) -> UserSettingsView {
    UserSettingsView {
        full_name: if b.full_name is Some { b.full_name } else { a.full_name },
        user_name: if b.user_name is Some { b.user_name } else { a.user_name },
        password: if b.password is Some { b.password } else { a.password },
        autologin: if b.autologin is Some { b.autologin } else { a.autologin },
    }
}

/// User settings
///
/// Holds the user settings for the installation.  An absent field means "not
/// specified", never "specified as the default".
#[derive(Debug)]
pub struct UserSettings {
    /// First user's full name
    pub full_name: Option<String>,
    /// First user's username
    pub user_name: Option<String>,
    /// First user's password (in clear text)
    pub password: Option<String>,
    /// Whether auto-login should be enabled or not
    pub autologin: Option<bool>,
}

impl View for UserSettings {
    type V = UserSettingsView;

    open spec fn view(&self) -> UserSettingsView {
        UserSettingsView {
            full_name: self.full_name.deep_view(),
            user_name: self.user_name.deep_view(),
            password: self.password.deep_view(),
            autologin: self.autologin,
        }
    }
}

impl Default for UserSettings {
    fn default() -> (r: Self)
        ensures
            r@ == spec_user_default(),
    {
        UserSettings { full_name: None, user_name: None, password: None, autologin: None }
    }
}

impl UserSettings {
    /// Replaces the addressed scalar field with the converted raw value; an
    /// error leaves the section unchanged.
    pub fn set(&mut self, attr: &str, value: AttributeValue) -> (r: Result<(), SettingsError>)
        ensures
            match spec_user_set(old(self)@, attr@, value@) {
                Ok(v) => r is Ok && final(self)@ == v,
                Err(e) => (r matches Err(err) && err@ == e) && final(self)@ == old(self)@,
            },
    {
        if str_eq(attr, "full_name") {
            self.full_name = Some(value.into_string());
            Ok(())
        } else if str_eq(attr, "user_name") {
            self.user_name = Some(value.into_string());
            Ok(())
        } else if str_eq(attr, "password") {
            self.password = Some(value.into_string());
            Ok(())
        } else if str_eq(attr, "autologin") {
            match value.to_bool() {
                Ok(b) => {
                    self.autologin = Some(b);
                    Ok(())
                },
                Err(e) => Err(SettingsError::Conversion(e)),
            }
        } else {
            Err(SettingsError::UnknownAttribute)
        }
    }

    /// Overlays `other` on this section: a scalar `other` defines wins, one it
    /// leaves out keeps its value here.
    pub fn merge(&mut self, other: &Self)
        ensures
            final(self)@ == spec_user_merge(old(self)@, other@),
    {
        match &other.full_name {
            Some(v) => { self.full_name = Some(v.clone()); },
            None => {},
        }
        match &other.user_name {
            Some(v) => { self.user_name = Some(v.clone()); },
            None => {},
        }
        match &other.password {
            Some(v) => { self.password = Some(v.clone()); },
            None => {},
        }
        if other.autologin.is_some() {
            self.autologin = other.autologin;
        }
        proof {
            assert(self@ =~= spec_user_merge(old(self)@, other@));
        }
    }
}

/// What a `set` of one field does to the software section.
pub open spec fn spec_software_set(
    s: SoftwareSettingsView,
    attr: Seq<char>,
    value: Seq<char>,
) -> Result<SoftwareSettingsView, ErrorView> {
    if attr == "product"@ {
        Ok(SoftwareSettingsView { product: Some(value) })
    } else {
        Err(ErrorView::UnknownAttribute)
    }
}

/// The overlay of `b` over `a`.
pub open spec fn spec_software_merge(
    a: SoftwareSettingsView,
    b: SoftwareSettingsView,
) -> SoftwareSettingsView {
    SoftwareSettingsView { product: if b.product is Some { b.product } else { a.product } }
}

/// Software settings for installation
#[derive(Debug)]
pub struct SoftwareSettings {
    /// ID of the product to install (e.g., "ALP", "Tumbleweed", etc.)
    pub product: Option<String>,
}

impl View for SoftwareSettings {
    type V = SoftwareSettingsView;

    open spec fn view(&self) -> SoftwareSettingsView {
        SoftwareSettingsView { product: self.product.deep_view() }
    }
}

impl Default for SoftwareSettings {
    fn default() -> (r: Self)
        ensures
            r@ == spec_software_default(),
    {
        SoftwareSettings { product: None }
    }
}

impl SoftwareSettings {
    /// Replaces the addressed scalar field with the converted raw value.
    pub fn set(&mut self, attr: &str, value: AttributeValue) -> (r: Result<(), SettingsError>)
        ensures
            match spec_software_set(old(self)@, attr@, value@) {
                Ok(v) => r is Ok && final(self)@ == v,
                Err(e) => (r matches Err(err) && err@ == e) && final(self)@ == old(self)@,
            },
    {
        if str_eq(attr, "product") {
            self.product = Some(value.into_string());
            Ok(())
        } else {
            Err(SettingsError::UnknownAttribute)
        }
    }

    /// Overlays `other` on this section.
    pub fn merge(&mut self, other: &Self)
        ensures
            final(self)@ == spec_software_merge(old(self)@, other@),
    {
        match &other.product {
            Some(v) => { self.product = Some(v.clone()); },
            None => {},
        }
        proof {
            assert(self@ =~= spec_software_merge(old(self)@, other@));
        }
    }
}

/// What a `set` of one field does to the storage section; `devices` is a
/// collection, not a scalar, so `set` does not address it.
pub open spec fn spec_storage_set(
    st: StorageSettingsView,
    attr: Seq<char>,
    value: Seq<char>,
) -> Result<StorageSettingsView, ErrorView> {
    if attr == "lvm"@ {
        match spec_to_bool(value) {
            Some(b) => Ok(StorageSettingsView { lvm: Some(b), ..st }),
            None => Err(ErrorView::InvalidFormat),
        }
    } else if attr == "encryption_password"@ {
        Ok(StorageSettingsView { encryption_password: Some(value), ..st })
    } else {
        Err(ErrorView::UnknownAttribute)
    }
}

/// What an `add` of one element does to the storage section: the converted
/// element is appended to the addressed collection, in call order, never
/// deduplicated.
pub open spec fn spec_storage_add(
    st: StorageSettingsView,
    attr: Seq<char>,
    obj: Seq<(Seq<char>, Seq<char>)>,
) -> Result<StorageSettingsView, ErrorView> {
    if attr == "devices"@ {
        match spec_device_from(obj) {
            Ok(name) => Ok(StorageSettingsView { devices: st.devices.push(name), ..st }),
            Err(e) => Err(e),
        }
    } else {
        Err(ErrorView::UnknownAttribute)
    }
}

/// The overlay of `b` over `a`: scalars `b` defines win, and `b`'s device
/// list replaces `a`'s as a whole.
pub open spec fn spec_storage_merge(
    a: StorageSettingsView,
    b: StorageSettingsView,
) -> StorageSettingsView {
    StorageSettingsView {
        lvm: if b.lvm is Some { b.lvm } else { a.lvm },
        encryption_password: if b.encryption_password is Some {
            b.encryption_password
        } else {
            a.encryption_password
        },
        devices: b.devices,
    }
}

/// Storage settings for installation
#[derive(Debug)]
pub struct StorageSettings {
    /// Whether LVM should be enabled
    pub lvm: Option<bool>,
    /// Encryption password for the storage devices (in clear text)
    pub encryption_password: Option<String>,
    /// Devices to use in the installation; an empty list is a valid,
    /// fully-specified state, distinct from the domain being absent.
    pub devices: Vec<Device>,
}

impl View for StorageSettings {
    type V = StorageSettingsView;

    open spec fn view(&self) -> StorageSettingsView {
        StorageSettingsView {
            lvm: self.lvm,
            encryption_password: self.encryption_password.deep_view(),
            devices: self.devices.deep_view(),
        }
    }
}

impl Default for StorageSettings {
    fn default() -> (r: Self)
        ensures
            r@ == spec_storage_default(),
    {
        let r = StorageSettings { lvm: None, encryption_password: None, devices: Vec::new() };
        proof {
            assert(r.devices.deep_view() =~= Seq::<Seq<char>>::empty());
        }
        r
    }
}

impl StorageSettings {
    /// Replaces the addressed scalar field with the converted raw value; an
    /// error leaves the section unchanged.
    pub fn set(&mut self, attr: &str, value: AttributeValue) -> (r: Result<(), SettingsError>)
        ensures
            match spec_storage_set(old(self)@, attr@, value@) {
                Ok(v) => r is Ok && final(self)@ == v,
                Err(e) => (r matches Err(err) && err@ == e) && final(self)@ == old(self)@,
            },
    {
        if str_eq(attr, "lvm") {
            match value.to_bool() {
                Ok(b) => {
                    self.lvm = Some(b);
                    Ok(())
                },
                Err(e) => Err(SettingsError::Conversion(e)),
            }
        } else if str_eq(attr, "encryption_password") {
            self.encryption_password = Some(value.into_string());
            Ok(())
        } else {
            Err(SettingsError::UnknownAttribute)
        }
    }

    /// Appends one converted element to the addressed collection; an error
    /// leaves the section unchanged.
    pub fn add(&mut self, attr: &str, value: SettingObject) -> (r: Result<(), SettingsError>)
        ensures
            match spec_storage_add(old(self)@, attr@, value@) {
                Ok(v) => r is Ok && final(self)@ == v,
                Err(e) => (r matches Err(err) && err@ == e) && final(self)@ == old(self)@,
            },
    {
        if str_eq(attr, "devices") {
            match Device::from_object(&value) {
                Ok(device) => {
                    push_device(&mut self.devices, device);
                    Ok(())
                },
                Err(e) => Err(SettingsError::Conversion(e)),
            }
        } else {
            Err(SettingsError::UnknownAttribute)
        }
    }

    /// Overlays `other` on this section: scalars `other` defines win, and its
    /// device list replaces this one as a whole.
    pub fn merge(&mut self, other: &Self)
        ensures
            final(self)@ == spec_storage_merge(old(self)@, other@),
    {
        if other.lvm.is_some() {
            self.lvm = other.lvm;
        }
        match &other.encryption_password {
            Some(v) => { self.encryption_password = Some(v.clone()); },
            None => {},
        }
        self.devices = copy_devices(&other.devices);
        proof {
            assert(self@ =~= spec_storage_merge(old(self)@, other@));
        }
    }
}

// ------------------------------------------------------------------
// The settings tree
// ------------------------------------------------------------------

/// What a `set` does to the whole tree: the path is resolved, the addressed
/// domain is created when absent, and the field is replaced; any error leaves
/// the tree unchanged.
pub open spec fn spec_tree_set(
    t: InstallSettingsView,
    path: Seq<char>,
    value: Seq<char>,
) -> Result<InstallSettingsView, ErrorView> {
    match spec_resolve(path) {
        Err(e) => Err(e),
        Ok((scope, field)) => match scope {
            Scope::Users => match spec_user_set(
                match t.user { Some(u) => u, None => spec_user_default() },
                field,
                value,
            ) {
                Ok(u) => Ok(InstallSettingsView { user: Some(u), ..t }),
                Err(e) => Err(e),
            },
            Scope::Software => match spec_software_set(
                match t.software { Some(s) => s, None => spec_software_default() },
                field,
                value,
            ) {
                Ok(s) => Ok(InstallSettingsView { software: Some(s), ..t }),
                Err(e) => Err(e),
            },
            Scope::Storage => match spec_storage_set(
                match t.storage { Some(st) => st, None => spec_storage_default() },
                field,
                value,
            ) {
                Ok(st) => Ok(InstallSettingsView { storage: Some(st), ..t }),
                Err(e) => Err(e),
            },
        },
    }
}

/// What an `add` does to the whole tree; only the storage domain has a
/// collection field, so the user and software domains know no `add` target.
pub open spec fn spec_tree_add(
    t: InstallSettingsView,
    path: Seq<char>,
    obj: Seq<(Seq<char>, Seq<char>)>,
) -> Result<InstallSettingsView, ErrorView> {
    match spec_resolve(path) {
        Err(e) => Err(e),
        Ok((scope, field)) => match scope {
            Scope::Users => Err(ErrorView::UnknownAttribute),
            Scope::Software => Err(ErrorView::UnknownAttribute),
            Scope::Storage => match spec_storage_add(
                match t.storage { Some(st) => st, None => spec_storage_default() },
                field,
                obj,
            ) {
                Ok(st) => Ok(InstallSettingsView { storage: Some(st), ..t }),
                Err(e) => Err(e),
            },
        },
    }
}

/// The overlay of tree `b` over tree `a`, domain by domain: a domain `b`
/// defines is merged into `a`'s (created when absent), a domain `b` leaves
/// out stays untouched.
pub open spec fn spec_tree_merge(
    a: InstallSettingsView,
    b: InstallSettingsView,
) -> InstallSettingsView {
    InstallSettingsView {
        user: match b.user {
            Some(bu) => Some(
                spec_user_merge(
                    match a.user { Some(au) => au, None => spec_user_default() },
                    bu,
                ),
            ),
            None => a.user,
        },
        software: match b.software {
            Some(bs) => Some(
                spec_software_merge(
                    match a.software { Some(s) => s, None => spec_software_default() },
                    bs,
                ),
            ),
            None => a.software,
        },
        storage: match b.storage {
            Some(bst) => Some(
                spec_storage_merge(
                    match a.storage { Some(st) => st, None => spec_storage_default() },
                    bst,
                ),
            ),
            None => a.storage,
        },
    }
}

/// The scopes whose domain is present, in the order stores walk them.
pub open spec fn spec_defined_scopes(t: InstallSettingsView) -> Seq<Scope> {
    (if t.user is Some {
        seq![Scope::Users]
    } else {
        Seq::<Scope>::empty()
    }) + (if t.storage is Some {
        seq![Scope::Storage]
    } else {
        Seq::<Scope>::empty()
    }) + (if t.software is Some {
        seq![Scope::Software]
    } else {
        Seq::<Scope>::empty()
    })
}

/// Installation settings
///
/// This struct represents installation settings. It serves as an entry point
/// and it is composed of other structs which hold the settings for each
/// domain ("users", "software", etc.), each of them optional: an absent
/// domain was not loaded and is never written back.
#[derive(Debug)]
pub struct InstallSettings {
    pub user: Option<UserSettings>,
    pub software: Option<SoftwareSettings>,
    pub storage: Option<StorageSettings>,
}

impl View for InstallSettings {
    type V = InstallSettingsView;

    open spec fn view(&self) -> InstallSettingsView {
        InstallSettingsView {
            user: match self.user {
                Some(u) => Some(u@),
                None => None,
            },
            software: match self.software {
                Some(s) => Some(s@),
                None => None,
            },
            storage: match self.storage {
                Some(st) => Some(st@),
                None => None,
            },
        }
    }
}

impl Default for InstallSettings {
    fn default() -> (r: Self)
        ensures
            r@ == spec_tree_default(),
    {
        InstallSettings { user: None, software: None, storage: None }
    }
}

impl InstallSettings {
    /// The scopes whose domain section is present; a later store is limited
    /// to exactly these domains.
    pub fn defined_scopes(&self) -> (r: Vec<Scope>)
        ensures
            r@ == spec_defined_scopes(self@),
    {
        let mut scopes: Vec<Scope> = Vec::new();
        if self.user.is_some() {
            scopes.push(Scope::Users);
        }
        if self.storage.is_some() {
            scopes.push(Scope::Storage);
        }
        if self.software.is_some() {
            scopes.push(Scope::Software);
        }
        proof {
            assert(scopes@ =~= spec_defined_scopes(self@));
        }
        scopes
    }

    /// Resolves `attr` and replaces the addressed scalar field, creating the
    /// domain section when absent; any error leaves the tree unchanged.
    pub fn set(&mut self, attr: &str, value: AttributeValue) -> (r: Result<(), SettingsError>)
        ensures
            match spec_tree_set(old(self)@, attr@, value@) {
                Ok(t) => r is Ok && final(self)@ == t,
                Err(e) => (r matches Err(err) && err@ == e) && final(self)@ == old(self)@,
            },
    {
        let ghost t0 = self@;
        let ghost vv = value@;
        let resolved = match resolve(attr) {
            Ok(pair) => pair,
            Err(e) => {
                return Err(SettingsError::Path(e));
            },
        };
        let (scope, field) = resolved;
        match scope {
            Scope::Users => {
                let was_present = self.user.is_some();
                let mut section = match self.user.take() {
                    Some(u) => u,
                    None => UserSettings::default(),
                };
                match section.set(field, value) {
                    Ok(()) => {
                        self.user = Some(section);
                        proof {
                            assert(self@ =~= spec_tree_set(t0, attr@, vv)->Ok_0);
                        }
                        Ok(())
                    },
                    Err(e) => {
                        if was_present {
                            self.user = Some(section);
                        }
                        proof {
                            assert(self@ =~= t0);
                        }
                        Err(e)
                    },
                }
            },
            Scope::Software => {
                let was_present = self.software.is_some();
                let mut section = match self.software.take() {
                    Some(s) => s,
                    None => SoftwareSettings::default(),
                };
                match section.set(field, value) {
                    Ok(()) => {
                        self.software = Some(section);
                        proof {
                            assert(self@ =~= spec_tree_set(t0, attr@, vv)->Ok_0);
                        }
                        Ok(())
                    },
                    Err(e) => {
                        if was_present {
                            self.software = Some(section);
                        }
                        proof {
                            assert(self@ =~= t0);
                        }
                        Err(e)
                    },
                }
            },
            Scope::Storage => {
                let was_present = self.storage.is_some();
                let mut section = match self.storage.take() {
                    Some(st) => st,
                    None => StorageSettings::default(),
                };
                match section.set(field, value) {
                    Ok(()) => {
                        self.storage = Some(section);
                        proof {
                            assert(self@ =~= spec_tree_set(t0, attr@, vv)->Ok_0);
                        }
                        Ok(())
                    },
                    Err(e) => {
                        if was_present {
                            self.storage = Some(section);
                        }
                        proof {
                            assert(self@ =~= t0);
                        }
                        Err(e)
                    },
                }
            },
        }
    }

    /// Resolves `attr` and appends one converted element to the addressed
    /// collection field, creating the domain section when absent; any error
    /// leaves the tree unchanged.
    pub fn add(&mut self, attr: &str, value: SettingObject) -> (r: Result<(), SettingsError>)
        ensures
            match spec_tree_add(old(self)@, attr@, value@) {
                Ok(t) => r is Ok && final(self)@ == t,
                Err(e) => (r matches Err(err) && err@ == e) && final(self)@ == old(self)@,
            },
    {
        let ghost t0 = self@;
        let ghost ov = value@;
        let resolved = match resolve(attr) {
            Ok(pair) => pair,
            Err(e) => {
                return Err(SettingsError::Path(e));
            },
        };
        let (scope, field) = resolved;
        match scope {
            Scope::Users => Err(SettingsError::UnknownAttribute),
            Scope::Software => Err(SettingsError::UnknownAttribute),
            Scope::Storage => {
                let was_present = self.storage.is_some();
                let mut section = match self.storage.take() {
                    Some(st) => st,
                    None => StorageSettings::default(),
                };
                match section.add(field, value) {
                    Ok(()) => {
                        self.storage = Some(section);
                        proof {
                            assert(self@ =~= spec_tree_add(t0, attr@, ov)->Ok_0);
                        }
                        Ok(())
                    },
                    Err(e) => {
                        if was_present {
                            self.storage = Some(section);
                        }
                        proof {
                            assert(self@ =~= t0);
                        }
                        Err(e)
                    },
                }
            },
        }
    }

    /// Overlays `other` on this tree, domain by domain.
    pub fn merge(&mut self, other: &Self)
        ensures
            final(self)@ == spec_tree_merge(old(self)@, other@),
    {
        match &other.software {
            Some(other_software) => {
                let mut section = match self.software.take() {
                    Some(s) => s,
                    None => SoftwareSettings::default(),
                };
                section.merge(other_software);
                self.software = Some(section);
            },
            None => {},
        }
        match &other.user {
            Some(other_user) => {
                let mut section = match self.user.take() {
                    Some(u) => u,
                    None => UserSettings::default(),
                };
                section.merge(other_user);
                self.user = Some(section);
            },
            None => {},
        }
        match &other.storage {
            Some(other_storage) => {
                let mut section = match self.storage.take() {
                    Some(st) => st,
                    None => StorageSettings::default(),
                };
                section.merge(other_storage);
                self.storage = Some(section);
            },
            None => {},
        }
        proof {
            assert(self@ =~= spec_tree_merge(old(self)@, other@));
        }
    }
}

impl Attributes for InstallSettings {
    fn set_attribute(&mut self, attr: &str, value: AttributeValue) -> Result<(), SettingsError> {
        self.set(attr, value)
    }
}

// ------------------------------------------------------------------
// Merge laws
// ------------------------------------------------------------------

/// Law: on one path, the last `set` wins.  Setting a value over an earlier
/// successful `set` of the same path yields exactly what the second `set`
/// alone would have produced, success and failure alike.
pub proof fn lemma_set_last_write_wins(
    t: InstallSettingsView,
    path: Seq<char>,
    v1: Seq<char>,
    v2: Seq<char>,
)
    requires
        spec_tree_set(t, path, v1) is Ok,
    ensures
        spec_tree_set(spec_tree_set(t, path, v1)->Ok_0, path, v2) == spec_tree_set(t, path, v2),
{
    let t1 = spec_tree_set(t, path, v1)->Ok_0;
    let lhs = spec_tree_set(t1, path, v2);
    let rhs = spec_tree_set(t, path, v2);
    match spec_resolve(path) {
        Err(_) => {},
        Ok((scope, field)) => {
            match (lhs, rhs) {
                (Ok(a), Ok(b)) => {
                    assert(a =~= b);
                },
                (Err(ea), Err(eb)) => {
                    assert(ea == eb);
                },
                _ => {
                    assert(false);
                },
            }
        },
    }
}

/// Law: repeated `add` calls on one collection append in call order: after
/// two successful adds the collection holds what it held before, followed by
/// the first element and then the second.
pub proof fn lemma_add_appends_in_call_order(
    t: InstallSettingsView,
    path: Seq<char>,
    o1: Seq<(Seq<char>, Seq<char>)>,
    o2: Seq<(Seq<char>, Seq<char>)>,
)
    requires
        spec_tree_add(t, path, o1) is Ok,
        spec_tree_add(spec_tree_add(t, path, o1)->Ok_0, path, o2) is Ok,
    ensures
        ({
            let t2 = spec_tree_add(spec_tree_add(t, path, o1)->Ok_0, path, o2)->Ok_0;
            let devices0 = match t.storage {
                Some(st) => st.devices,
                None => Seq::empty(),
            };
            t2.storage matches Some(st2) && st2.devices == devices0
                + seq![spec_device_from(o1)->Ok_0, spec_device_from(o2)->Ok_0]
        }),
{
    let t1 = spec_tree_add(t, path, o1)->Ok_0;
    let t2 = spec_tree_add(t1, path, o2)->Ok_0;
    let devices0 = match t.storage {
        Some(st) => st.devices,
        None => Seq::empty(),
    };
    assert(t2.storage matches Some(st2) && st2.devices =~= devices0
        + seq![spec_device_from(o1)->Ok_0, spec_device_from(o2)->Ok_0]);
}

/// Law: overlaying an empty tree (nothing present) is a no-op; the receiver
/// is unchanged in every field.
pub proof fn lemma_merge_empty_overlay(t: InstallSettingsView)
    ensures
        spec_tree_merge(t, spec_tree_default()) == t,
{
    assert(spec_tree_merge(t, spec_tree_default()) =~= t);
}

/// Law: overlaying a tree on an empty receiver yields that tree.
pub proof fn lemma_merge_into_empty(t: InstallSettingsView)
    ensures
        spec_tree_merge(spec_tree_default(), t) == t,
{
    match t.user {
        Some(u) => {
            assert(spec_user_merge(spec_user_default(), u) =~= u);
        },
        None => {},
    }
    match t.software {
        Some(s) => {
            assert(spec_software_merge(spec_software_default(), s) =~= s);
        },
        None => {},
    }
    match t.storage {
        Some(st) => {
            assert(spec_storage_merge(spec_storage_default(), st) =~= st);
        },
        None => {},
    }
    assert(spec_tree_merge(spec_tree_default(), t) =~= t);
}

} // verus!
