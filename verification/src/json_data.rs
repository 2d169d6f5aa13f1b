//! In-memory shape of the remote theme document: the root wrapper, the theme
//! itself, its fixed set of named template slots, and the small metadata
//! record that is kept beside a theme on disk.

use vstd::prelude::*;

verus! {

/// Extension slot reserved by the remote schema; carries no data here.
#[derive(Clone, Debug, PartialEq, Eq, Structural)]
pub struct Data {}

/// Extension slot reserved by the remote schema; carries no data here.
#[derive(Clone, Debug, PartialEq, Eq, Structural)]
pub struct LocalizedMessages {}

/// The fixed, closed set of named template slots of a theme. Every slot holds
/// one document's text; an absent slot is an empty string, never a distinct
/// "unset" state.
#[derive(Clone, Debug, PartialEq)]
pub struct Templates {
    pub account_edit: String,
    pub account_index: String,
    pub account_two_factor_disable: String,
    pub account_two_factor_enable: String,
    pub account_two_factor_index: String,
    pub account_web_authn_add: String,
    pub account_web_authn_delete: String,
    pub account_web_authn_index: String,
    pub email_complete: String,
    pub email_send: String,
    pub email_sent: String,
    pub email_verification_required: String,
    pub email_verify: String,
    pub helpers: String,
    pub index: String,
    pub oauth2_authorize: String,
    pub oauth2_authorized_not_registered: String,
    pub oauth2_child_registration_not_allowed: String,
    pub oauth2_child_registration_not_allowed_complete: String,
    pub oauth2_complete_registration: String,
    pub oauth2_device: String,
    pub oauth2_device_complete: String,
    pub oauth2_error: String,
    pub oauth2_logout: String,
    pub oauth2_passwordless: String,
    pub oauth2_register: String,
    pub oauth2_start_id_plink: String,
    pub oauth2_two_factor: String,
    pub oauth2_two_factor_enable: String,
    pub oauth2_two_factor_enable_complete: String,
    pub oauth2_two_factor_methods: String,
    pub oauth2_wait: String,
    pub oauth2_web_authn: String,
    pub oauth2_web_authn_reauth: String,
    pub oauth2_web_authn_reauth_enable: String,
    pub password_change: String,
    pub password_complete: String,
    pub password_forgot: String,
    pub password_sent: String,
    pub registration_complete: String,
    pub registration_send: String,
    pub registration_sent: String,
    pub registration_verification_required: String,
    pub registration_verify: String,
    pub samlv2_logout: String,
    pub unauthorized: String,
}

impl View for Templates {
    type V = Seq<Seq<char>>;

    /// A template set is modelled as the sequence of its slot values, in slot
    /// order.
    open spec fn view(&self) -> Seq<Seq<char>> {
        seq![
            self.account_edit@,
            self.account_index@,
            self.account_two_factor_disable@,
            self.account_two_factor_enable@,
            self.account_two_factor_index@,
            self.account_web_authn_add@,
            self.account_web_authn_delete@,
            self.account_web_authn_index@,
            self.email_complete@,
            self.email_send@,
            self.email_sent@,
            self.email_verification_required@,
            self.email_verify@,
            self.helpers@,
            self.index@,
            self.oauth2_authorize@,
            self.oauth2_authorized_not_registered@,
            self.oauth2_child_registration_not_allowed@,
            self.oauth2_child_registration_not_allowed_complete@,
            self.oauth2_complete_registration@,
            self.oauth2_device@,
            self.oauth2_device_complete@,
            self.oauth2_error@,
            self.oauth2_logout@,
            self.oauth2_passwordless@,
            self.oauth2_register@,
            self.oauth2_start_id_plink@,
            self.oauth2_two_factor@,
            self.oauth2_two_factor_enable@,
            self.oauth2_two_factor_enable_complete@,
            self.oauth2_two_factor_methods@,
            self.oauth2_wait@,
            self.oauth2_web_authn@,
            self.oauth2_web_authn_reauth@,
            self.oauth2_web_authn_reauth_enable@,
            self.password_change@,
            self.password_complete@,
            self.password_forgot@,
            self.password_sent@,
            self.registration_complete@,
            self.registration_send@,
            self.registration_sent@,
            self.registration_verification_required@,
            self.registration_verify@,
            self.samlv2_logout@,
            self.unauthorized@,
        ]
    }
}

impl Default for Templates {
    /// All slots empty.
    fn default() -> (r: Self)
        ensures
            r@.len() == crate::slot_count(),
            forall|i: int| 0 <= i < crate::slot_count() ==> r@[i] == Seq::<char>::empty(),
    {
        let r = Templates {
            account_edit: String::new(),
            account_index: String::new(),
            account_two_factor_disable: String::new(),
            account_two_factor_enable: String::new(),
            account_two_factor_index: String::new(),
            account_web_authn_add: String::new(),
            account_web_authn_delete: String::new(),
            account_web_authn_index: String::new(),
            email_complete: String::new(),
            email_send: String::new(),
            email_sent: String::new(),
            email_verification_required: String::new(),
            email_verify: String::new(),
            helpers: String::new(),
            index: String::new(),
            oauth2_authorize: String::new(),
            oauth2_authorized_not_registered: String::new(),
            oauth2_child_registration_not_allowed: String::new(),
            oauth2_child_registration_not_allowed_complete: String::new(),
            oauth2_complete_registration: String::new(),
            oauth2_device: String::new(),
            oauth2_device_complete: String::new(),
            oauth2_error: String::new(),
            oauth2_logout: String::new(),
            oauth2_passwordless: String::new(),
            oauth2_register: String::new(),
            oauth2_start_id_plink: String::new(),
            oauth2_two_factor: String::new(),
            oauth2_two_factor_enable: String::new(),
            oauth2_two_factor_enable_complete: String::new(),
            oauth2_two_factor_methods: String::new(),
            oauth2_wait: String::new(),
            oauth2_web_authn: String::new(),
            oauth2_web_authn_reauth: String::new(),
            oauth2_web_authn_reauth_enable: String::new(),
            password_change: String::new(),
            password_complete: String::new(),
            password_forgot: String::new(),
            password_sent: String::new(),
            registration_complete: String::new(),
            registration_send: String::new(),
            registration_sent: String::new(),
            registration_verification_required: String::new(),
            registration_verify: String::new(),
            samlv2_logout: String::new(),
            unauthorized: String::new(),
        };
        r
    }
}

/// Ghost shape of a theme: every text field as a character sequence, the
/// template set as a sequence of slot values.
pub struct ThemeView {
    pub id: Seq<char>,
    pub name: Seq<char>,
    pub default_messages: Seq<char>,
    pub insert_instant: u64,
    pub last_update_instant: u64,
    pub templates: Seq<Seq<char>>,
}

/// The full remote theme resource. `id` and the two instants are
/// server-managed; `data` and `localized_messages` are empty extension slots.
#[derive(Clone, Debug, PartialEq)]
pub struct Theme {
    pub data: Data,
    pub default_messages: String,
    pub id: String,
    pub insert_instant: u64,
    pub last_update_instant: u64,
    pub localized_messages: LocalizedMessages,
    pub name: String,
    pub templates: Templates,
}

impl View for Theme {
    type V = ThemeView;

    open spec fn view(&self) -> ThemeView {
        ThemeView {
            id: self.id@,
            name: self.name@,
            default_messages: self.default_messages@,
            insert_instant: self.insert_instant,
            last_update_instant: self.last_update_instant,
            templates: self.templates@,
        }
    }
}

impl Default for Theme {
    /// Empty strings, zero instants, all slots empty.
    fn default() -> (r: Self)
        ensures
            r@.id == Seq::<char>::empty(),
            r@.name == Seq::<char>::empty(),
            r@.default_messages == Seq::<char>::empty(),
            r@.insert_instant == 0,
            r@.last_update_instant == 0,
            r@.templates.len() == crate::slot_count(),
            forall|i: int| 0 <= i < crate::slot_count() ==> r@.templates[i] == Seq::<char>::empty(),
    {
        Theme {
            data: Data {},
            default_messages: String::new(),
            id: String::new(),
            insert_instant: 0,
            last_update_instant: 0,
            localized_messages: LocalizedMessages {},
            name: String::new(),
            templates: Templates::default(),
        }
    }
}

/// The wire document: a root object wrapping one theme.
#[derive(Clone, Debug, PartialEq)]
pub struct Root {
    pub theme: Theme,
}

/// The locally persisted identity of a theme: its server id and its name.
#[derive(Clone, Debug, PartialEq)]
pub struct Metadata {
    pub id: String,
    pub name: String,
}

} // verus!
