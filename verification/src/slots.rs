//! The declarative slot table: for every template slot, its position, the
//! field name it carries in the wire document (a few names are fixed
//! literals that no mechanical case transform produces), and the file it is
//! stored in under a theme directory. The serializer and the directory codec
//! both consult this one table, so the three name universes stay in step.

use vstd::prelude::*;
use crate::json_data::Templates;

verus! {

/// Wire-document field name of slot `i`.
pub open spec fn slot_json_name(i: int) -> Seq<char> {
    if i == 0 {
        "accountEdit"@
    } else if i == 1 {
        "accountIndex"@
    } else if i == 2 {
        "accountTwoFactorDisable"@
    } else if i == 3 {
        "accountTwoFactorEnable"@
    } else if i == 4 {
        "accountTwoFactorIndex"@
    } else if i == 5 {
        "accountWebAuthnAdd"@
    } else if i == 6 {
        "accountWebAuthnDelete"@
    } else if i == 7 {
        "accountWebAuthnIndex"@
    } else if i == 8 {
        "emailComplete"@
    } else if i == 9 {
        "emailSend"@
    } else if i == 10 {
        "emailSent"@
    } else if i == 11 {
        "emailVerificationRequired"@
    } else if i == 12 {
        "emailVerify"@
    } else if i == 13 {
        "helpers"@
    } else if i == 14 {
        "index"@
    } else if i == 15 {
        "oauth2Authorize"@
    } else if i == 16 {
        "oauth2AuthorizedNotRegistered"@
    } else if i == 17 {
        "oauth2ChildRegistrationNotAllowed"@
    } else if i == 18 {
        "oauth2ChildRegistrationNotAllowedComplete"@
    } else if i == 19 {
        "oauth2CompleteRegistration"@
    } else if i == 20 {
        "oauth2Device"@
    } else if i == 21 {
        "oauth2DeviceComplete"@
    } else if i == 22 {
        "oauth2Error"@
    } else if i == 23 {
        "oauth2Logout"@
    } else if i == 24 {
        "oauth2Passwordless"@
    } else if i == 25 {
        "oauth2Register"@
    } else if i == 26 {
        "oauth2StartIdPLink"@
    } else if i == 27 {
        "oauth2TwoFactor"@
    } else if i == 28 {
        "oauth2TwoFactorEnable"@
    } else if i == 29 {
        "oauth2TwoFactorEnableComplete"@
    } else if i == 30 {
        "oauth2TwoFactorMethods"@
    } else if i == 31 {
        "oauth2Wait"@
    } else if i == 32 {
        "oauth2WebAuthn"@
    } else if i == 33 {
        "oauth2WebAuthnReauth"@
    } else if i == 34 {
        "oauth2WebAuthnReauthEnable"@
    } else if i == 35 {
        "passwordChange"@
    } else if i == 36 {
        "passwordComplete"@
    } else if i == 37 {
        "passwordForgot"@
    } else if i == 38 {
        "passwordSent"@
    } else if i == 39 {
        "registrationComplete"@
    } else if i == 40 {
        "registrationSend"@
    } else if i == 41 {
        "registrationSent"@
    } else if i == 42 {
        "registrationVerificationRequired"@
    } else if i == 43 {
        "registrationVerify"@
    } else if i == 44 {
        "samlv2Logout"@
    } else {
        "unauthorized"@
    }
}

/// Relative path, under a theme directory, of the file that stores slot `i`.
pub open spec fn slot_file_path(i: int) -> Seq<char> {
    if i == 0 {
        "templates/account_edit.ftl"@
    } else if i == 1 {
        "templates/account_index.ftl"@
    } else if i == 2 {
        "templates/account_two_factor_disable.ftl"@
    } else if i == 3 {
        "templates/account_two_factor_enable.ftl"@
    } else if i == 4 {
        "templates/account_two_factor_index.ftl"@
    } else if i == 5 {
        "templates/account_web_authn_add.ftl"@
    } else if i == 6 {
        "templates/account_web_authn_delete.ftl"@
    } else if i == 7 {
        "templates/account_web_authn_index.ftl"@
    } else if i == 8 {
        "templates/email_complete.ftl"@
    } else if i == 9 {
        "templates/email_send.ftl"@
    } else if i == 10 {
        "templates/email_sent.ftl"@
    } else if i == 11 {
        "templates/email_verification_required.ftl"@
    } else if i == 12 {
        "templates/email_verify.ftl"@
    } else if i == 13 {
        "templates/helpers.ftl"@
    } else if i == 14 {
        "templates/index.ftl"@
    } else if i == 15 {
        "templates/oauth2_authorize.ftl"@
    } else if i == 16 {
        "templates/oauth2_authorized_not_registered.ftl"@
    } else if i == 17 {
        "templates/oauth2_child_registration_not_allowed.ftl"@
    } else if i == 18 {
        "templates/oauth2_child_registration_not_allowed_complete.ftl"@
    } else if i == 19 {
        "templates/oauth2_complete_registration.ftl"@
    } else if i == 20 {
        "templates/oauth2_device.ftl"@
    } else if i == 21 {
        "templates/oauth2_device_complete.ftl"@
    } else if i == 22 {
        "templates/oauth2_error.ftl"@
    } else if i == 23 {
        "templates/oauth2_logout.ftl"@
    } else if i == 24 {
        "templates/oauth2_passwordless.ftl"@
    } else if i == 25 {
        "templates/oauth2_register.ftl"@
    } else if i == 26 {
        "templates/oauth2_start_id_plink.ftl"@
    } else if i == 27 {
        "templates/oauth2_two_factor.ftl"@
    } else if i == 28 {
        "templates/oauth2_two_factor_enable.ftl"@
    } else if i == 29 {
        "templates/oauth2_two_factor_enable_complete.ftl"@
    } else if i == 30 {
        "templates/oauth2_two_factor_methods.ftl"@
    } else if i == 31 {
        "templates/oauth2_wait.ftl"@
    } else if i == 32 {
        "templates/oauth2_web_authn.ftl"@
    } else if i == 33 {
        "templates/oauth2_web_authn_reauth.ftl"@
    } else if i == 34 {
        "templates/oauth2_web_authn_reauth_enable.ftl"@
    } else if i == 35 {
        "templates/password_change.ftl"@
    } else if i == 36 {
        "templates/password_complete.ftl"@
    } else if i == 37 {
        "templates/password_forgot.ftl"@
    } else if i == 38 {
        "templates/password_sent.ftl"@
    } else if i == 39 {
        "templates/registration_complete.ftl"@
    } else if i == 40 {
        "templates/registration_send.ftl"@
    } else if i == 41 {
        "templates/registration_sent.ftl"@
    } else if i == 42 {
        "templates/registration_verification_required.ftl"@
    } else if i == 43 {
        "templates/registration_verify.ftl"@
    } else if i == 44 {
        "templates/samlv2_logout.ftl"@
    } else {
        "templates/unauthorized.ftl"@
    }
}

/// Wire-document field name of slot `i`.
pub fn json_name_at(i: usize) -> (r: &'static str)
    requires
        i < crate::slot_count(),
    ensures
        r@ == slot_json_name(i as int),
{
    if i == 0 {
        "accountEdit"
    } else if i == 1 {
        "accountIndex"
    } else if i == 2 {
        "accountTwoFactorDisable"
    } else if i == 3 {
        "accountTwoFactorEnable"
    } else if i == 4 {
        "accountTwoFactorIndex"
    } else if i == 5 {
        "accountWebAuthnAdd"
    } else if i == 6 {
        "accountWebAuthnDelete"
    } else if i == 7 {
        "accountWebAuthnIndex"
    } else if i == 8 {
        "emailComplete"
    } else if i == 9 {
        "emailSend"
    } else if i == 10 {
        "emailSent"
    } else if i == 11 {
        "emailVerificationRequired"
    } else if i == 12 {
        "emailVerify"
    } else if i == 13 {
        "helpers"
    } else if i == 14 {
        "index"
    } else if i == 15 {
        "oauth2Authorize"
    } else if i == 16 {
        "oauth2AuthorizedNotRegistered"
    } else if i == 17 {
        "oauth2ChildRegistrationNotAllowed"
    } else if i == 18 {
        "oauth2ChildRegistrationNotAllowedComplete"
    } else if i == 19 {
        "oauth2CompleteRegistration"
    } else if i == 20 {
        "oauth2Device"
    } else if i == 21 {
        "oauth2DeviceComplete"
    } else if i == 22 {
        "oauth2Error"
    } else if i == 23 {
        "oauth2Logout"
    } else if i == 24 {
        "oauth2Passwordless"
    } else if i == 25 {
        "oauth2Register"
    } else if i == 26 {
        "oauth2StartIdPLink"
    } else if i == 27 {
        "oauth2TwoFactor"
    } else if i == 28 {
        "oauth2TwoFactorEnable"
    } else if i == 29 {
        "oauth2TwoFactorEnableComplete"
    } else if i == 30 {
        "oauth2TwoFactorMethods"
    } else if i == 31 {
        "oauth2Wait"
    } else if i == 32 {
        "oauth2WebAuthn"
    } else if i == 33 {
        "oauth2WebAuthnReauth"
    } else if i == 34 {
        "oauth2WebAuthnReauthEnable"
    } else if i == 35 {
        "passwordChange"
    } else if i == 36 {
        "passwordComplete"
    } else if i == 37 {
        "passwordForgot"
    } else if i == 38 {
        "passwordSent"
    } else if i == 39 {
        "registrationComplete"
    } else if i == 40 {
        "registrationSend"
    } else if i == 41 {
        "registrationSent"
    } else if i == 42 {
        "registrationVerificationRequired"
    } else if i == 43 {
        "registrationVerify"
    } else if i == 44 {
        "samlv2Logout"
    } else {
        "unauthorized"
    }
}

/// Relative path of the file that stores slot `i`.
pub fn file_path_at(i: usize) -> (r: &'static str)
    requires
        i < crate::slot_count(),
    ensures
        r@ == slot_file_path(i as int),
{
    if i == 0 {
        "templates/account_edit.ftl"
    } else if i == 1 {
        "templates/account_index.ftl"
    } else if i == 2 {
        "templates/account_two_factor_disable.ftl"
    } else if i == 3 {
        "templates/account_two_factor_enable.ftl"
    } else if i == 4 {
        "templates/account_two_factor_index.ftl"
    } else if i == 5 {
        "templates/account_web_authn_add.ftl"
    } else if i == 6 {
        "templates/account_web_authn_delete.ftl"
    } else if i == 7 {
        "templates/account_web_authn_index.ftl"
    } else if i == 8 {
        "templates/email_complete.ftl"
    } else if i == 9 {
        "templates/email_send.ftl"
    } else if i == 10 {
        "templates/email_sent.ftl"
    } else if i == 11 {
        "templates/email_verification_required.ftl"
    } else if i == 12 {
        "templates/email_verify.ftl"
    } else if i == 13 {
        "templates/helpers.ftl"
    } else if i == 14 {
        "templates/index.ftl"
    } else if i == 15 {
        "templates/oauth2_authorize.ftl"
    } else if i == 16 {
        "templates/oauth2_authorized_not_registered.ftl"
    } else if i == 17 {
        "templates/oauth2_child_registration_not_allowed.ftl"
    } else if i == 18 {
        "templates/oauth2_child_registration_not_allowed_complete.ftl"
    } else if i == 19 {
        "templates/oauth2_complete_registration.ftl"
    } else if i == 20 {
        "templates/oauth2_device.ftl"
    } else if i == 21 {
        "templates/oauth2_device_complete.ftl"
    } else if i == 22 {
        "templates/oauth2_error.ftl"
    } else if i == 23 {
        "templates/oauth2_logout.ftl"
    } else if i == 24 {
        "templates/oauth2_passwordless.ftl"
    } else if i == 25 {
        "templates/oauth2_register.ftl"
    } else if i == 26 {
        "templates/oauth2_start_id_plink.ftl"
    } else if i == 27 {
        "templates/oauth2_two_factor.ftl"
    } else if i == 28 {
        "templates/oauth2_two_factor_enable.ftl"
    } else if i == 29 {
        "templates/oauth2_two_factor_enable_complete.ftl"
    } else if i == 30 {
        "templates/oauth2_two_factor_methods.ftl"
    } else if i == 31 {
        "templates/oauth2_wait.ftl"
    } else if i == 32 {
        "templates/oauth2_web_authn.ftl"
    } else if i == 33 {
        "templates/oauth2_web_authn_reauth.ftl"
    } else if i == 34 {
        "templates/oauth2_web_authn_reauth_enable.ftl"
    } else if i == 35 {
        "templates/password_change.ftl"
    } else if i == 36 {
        "templates/password_complete.ftl"
    } else if i == 37 {
        "templates/password_forgot.ftl"
    } else if i == 38 {
        "templates/password_sent.ftl"
    } else if i == 39 {
        "templates/registration_complete.ftl"
    } else if i == 40 {
        "templates/registration_send.ftl"
    } else if i == 41 {
        "templates/registration_sent.ftl"
    } else if i == 42 {
        "templates/registration_verification_required.ftl"
    } else if i == 43 {
        "templates/registration_verify.ftl"
    } else if i == 44 {
        "templates/samlv2_logout.ftl"
    } else {
        "templates/unauthorized.ftl"
    }
}

/// The value of slot `i` of a template set.
pub fn slot_value<'a>(t: &'a Templates, i: usize) -> (r: &'a String)
    requires
        i < crate::slot_count(),
    ensures
        r@ == t@[i as int],
{
    if i == 0 {
        &t.account_edit
    } else if i == 1 {
        &t.account_index
    } else if i == 2 {
        &t.account_two_factor_disable
    } else if i == 3 {
        &t.account_two_factor_enable
    } else if i == 4 {
        &t.account_two_factor_index
    } else if i == 5 {
        &t.account_web_authn_add
    } else if i == 6 {
        &t.account_web_authn_delete
    } else if i == 7 {
        &t.account_web_authn_index
    } else if i == 8 {
        &t.email_complete
    } else if i == 9 {
        &t.email_send
    } else if i == 10 {
        &t.email_sent
    } else if i == 11 {
        &t.email_verification_required
    } else if i == 12 {
        &t.email_verify
    } else if i == 13 {
        &t.helpers
    } else if i == 14 {
        &t.index
    } else if i == 15 {
        &t.oauth2_authorize
    } else if i == 16 {
        &t.oauth2_authorized_not_registered
    } else if i == 17 {
        &t.oauth2_child_registration_not_allowed
    } else if i == 18 {
        &t.oauth2_child_registration_not_allowed_complete
    } else if i == 19 {
        &t.oauth2_complete_registration
    } else if i == 20 {
        &t.oauth2_device
    } else if i == 21 {
        &t.oauth2_device_complete
    } else if i == 22 {
        &t.oauth2_error
    } else if i == 23 {
        &t.oauth2_logout
    } else if i == 24 {
        &t.oauth2_passwordless
    } else if i == 25 {
        &t.oauth2_register
    } else if i == 26 {
        &t.oauth2_start_id_plink
    } else if i == 27 {
        &t.oauth2_two_factor
    } else if i == 28 {
        &t.oauth2_two_factor_enable
    } else if i == 29 {
        &t.oauth2_two_factor_enable_complete
    } else if i == 30 {
        &t.oauth2_two_factor_methods
    } else if i == 31 {
        &t.oauth2_wait
    } else if i == 32 {
        &t.oauth2_web_authn
    } else if i == 33 {
        &t.oauth2_web_authn_reauth
    } else if i == 34 {
        &t.oauth2_web_authn_reauth_enable
    } else if i == 35 {
        &t.password_change
    } else if i == 36 {
        &t.password_complete
    } else if i == 37 {
        &t.password_forgot
    } else if i == 38 {
        &t.password_sent
    } else if i == 39 {
        &t.registration_complete
    } else if i == 40 {
        &t.registration_send
    } else if i == 41 {
        &t.registration_sent
    } else if i == 42 {
        &t.registration_verification_required
    } else if i == 43 {
        &t.registration_verify
    } else if i == 44 {
        &t.samlv2_logout
    } else {
        &t.unauthorized
    }
}

/// Builds a template set from one value per slot, in slot order.
pub fn templates_from_vec(v: &Vec<String>) -> (t: Templates)
    requires
        v@.len() == crate::slot_count(),
    ensures
        t@.len() == crate::slot_count(),
        forall|i: int| 0 <= i < crate::slot_count() ==> t@[i] == v@[i]@,
{
    Templates {
        account_edit: v[0].clone(),
        account_index: v[1].clone(),
        account_two_factor_disable: v[2].clone(),
        account_two_factor_enable: v[3].clone(),
        account_two_factor_index: v[4].clone(),
        account_web_authn_add: v[5].clone(),
        account_web_authn_delete: v[6].clone(),
        account_web_authn_index: v[7].clone(),
        email_complete: v[8].clone(),
        email_send: v[9].clone(),
        email_sent: v[10].clone(),
        email_verification_required: v[11].clone(),
        email_verify: v[12].clone(),
        helpers: v[13].clone(),
        index: v[14].clone(),
        oauth2_authorize: v[15].clone(),
        oauth2_authorized_not_registered: v[16].clone(),
        oauth2_child_registration_not_allowed: v[17].clone(),
        oauth2_child_registration_not_allowed_complete: v[18].clone(),
        oauth2_complete_registration: v[19].clone(),
        oauth2_device: v[20].clone(),
        oauth2_device_complete: v[21].clone(),
        oauth2_error: v[22].clone(),
        oauth2_logout: v[23].clone(),
        oauth2_passwordless: v[24].clone(),
        oauth2_register: v[25].clone(),
        oauth2_start_id_plink: v[26].clone(),
        oauth2_two_factor: v[27].clone(),
        oauth2_two_factor_enable: v[28].clone(),
        oauth2_two_factor_enable_complete: v[29].clone(),
        oauth2_two_factor_methods: v[30].clone(),
        oauth2_wait: v[31].clone(),
        oauth2_web_authn: v[32].clone(),
        oauth2_web_authn_reauth: v[33].clone(),
        oauth2_web_authn_reauth_enable: v[34].clone(),
        password_change: v[35].clone(),
        password_complete: v[36].clone(),
        password_forgot: v[37].clone(),
        password_sent: v[38].clone(),
        registration_complete: v[39].clone(),
        registration_send: v[40].clone(),
        registration_sent: v[41].clone(),
        registration_verification_required: v[42].clone(),
        registration_verify: v[43].clone(),
        samlv2_logout: v[44].clone(),
        unauthorized: v[45].clone(),
    }
}

/// A few sampled positions of a name: its length, its first, last and
/// middle characters, and the one five from the end. Two names with
/// different marks are different; the table's names all have different
/// marks, which is how the lemmas below tell them apart.
pub open spec fn name_marks(s: Seq<char>) -> (int, char, char, char, char) {
    (
        s.len() as int,
        s[0],
        s[s.len() - 1],
        s[s.len() as int / 2],
        if s.len() >= 5 {
            s[s.len() - 5]
        } else {
            s[0]
        },
    )
}

/// No two template slots share a wire-document field name.
#[verifier::rlimit(100)]
pub proof fn lemma_slot_json_names_distinct()
    ensures
        forall|i: int, j: int|
            0 <= i < crate::slot_count() && 0 <= j < crate::slot_count() && i != j
                ==> slot_json_name(i) != slot_json_name(j),
{
    reveal_strlit("accountEdit");
    reveal_strlit("accountIndex");
    reveal_strlit("accountTwoFactorDisable");
    reveal_strlit("accountTwoFactorEnable");
    reveal_strlit("accountTwoFactorIndex");
    reveal_strlit("accountWebAuthnAdd");
    reveal_strlit("accountWebAuthnDelete");
    reveal_strlit("accountWebAuthnIndex");
    reveal_strlit("emailComplete");
    reveal_strlit("emailSend");
    reveal_strlit("emailSent");
    reveal_strlit("emailVerificationRequired");
    reveal_strlit("emailVerify");
    reveal_strlit("helpers");
    reveal_strlit("index");
    reveal_strlit("oauth2Authorize");
    reveal_strlit("oauth2AuthorizedNotRegistered");
    reveal_strlit("oauth2ChildRegistrationNotAllowed");
    reveal_strlit("oauth2ChildRegistrationNotAllowedComplete");
    reveal_strlit("oauth2CompleteRegistration");
    reveal_strlit("oauth2Device");
    reveal_strlit("oauth2DeviceComplete");
    reveal_strlit("oauth2Error");
    reveal_strlit("oauth2Logout");
    reveal_strlit("oauth2Passwordless");
    reveal_strlit("oauth2Register");
    reveal_strlit("oauth2StartIdPLink");
    reveal_strlit("oauth2TwoFactor");
    reveal_strlit("oauth2TwoFactorEnable");
    reveal_strlit("oauth2TwoFactorEnableComplete");
    reveal_strlit("oauth2TwoFactorMethods");
    reveal_strlit("oauth2Wait");
    reveal_strlit("oauth2WebAuthn");
    reveal_strlit("oauth2WebAuthnReauth");
    reveal_strlit("oauth2WebAuthnReauthEnable");
    reveal_strlit("passwordChange");
    reveal_strlit("passwordComplete");
    reveal_strlit("passwordForgot");
    reveal_strlit("passwordSent");
    reveal_strlit("registrationComplete");
    reveal_strlit("registrationSend");
    reveal_strlit("registrationSent");
    reveal_strlit("registrationVerificationRequired");
    reveal_strlit("registrationVerify");
    reveal_strlit("samlv2Logout");
    reveal_strlit("unauthorized");
    assert(name_marks(slot_json_name(0)) == (11int, 'a', 't', 'n', 't'));
    assert(name_marks(slot_json_name(1)) == (12int, 'a', 'x', 't', 'I'));
    assert(name_marks(slot_json_name(2)) == (23int, 'a', 'e', 'a', 's'));
    assert(name_marks(slot_json_name(3)) == (22int, 'a', 'e', 'a', 'n'));
    assert(name_marks(slot_json_name(4)) == (21int, 'a', 'x', 'F', 'I'));
    assert(name_marks(slot_json_name(5)) == (18int, 'a', 'd', 'b', 'h'));
    assert(name_marks(slot_json_name(6)) == (21int, 'a', 'e', 'A', 'e'));
    assert(name_marks(slot_json_name(7)) == (20int, 'a', 'x', 'A', 'I'));
    assert(name_marks(slot_json_name(8)) == (13int, 'e', 'e', 'o', 'p'));
    assert(name_marks(slot_json_name(9)) == (9int, 'e', 'd', 'l', 'l'));
    assert(name_marks(slot_json_name(10)) == (9int, 'e', 't', 'l', 'l'));
    assert(name_marks(slot_json_name(11)) == (25int, 'e', 'd', 'a', 'u'));
    assert(name_marks(slot_json_name(12)) == (11int, 'e', 'y', 'V', 'e'));
    assert(name_marks(slot_json_name(13)) == (7int, 'h', 's', 'p', 'l'));
    assert(name_marks(slot_json_name(14)) == (5int, 'i', 'x', 'd', 'i'));
    assert(name_marks(slot_json_name(15)) == (15int, 'o', 'e', 'u', 'o'));
    assert(name_marks(slot_json_name(16)) == (29int, 'o', 'd', 'e', 't'));
    assert(name_marks(slot_json_name(17)) == (33int, 'o', 'd', 't', 'l'));
    assert(name_marks(slot_json_name(18)) == (41int, 'o', 'e', 'i', 'p'));
    assert(name_marks(slot_json_name(19)) == (26int, 'o', 'n', 'e', 'a'));
    assert(name_marks(slot_json_name(20)) == (12int, 'o', 'e', 'D', 'e'));
    assert(name_marks(slot_json_name(21)) == (20int, 'o', 'e', 'c', 'p'));
    assert(name_marks(slot_json_name(22)) == (11int, 'o', 'r', '2', 'E'));
    assert(name_marks(slot_json_name(23)) == (12int, 'o', 't', 'L', 'o'));
    assert(name_marks(slot_json_name(24)) == (18int, 'o', 's', 's', 'd'));
    assert(name_marks(slot_json_name(25)) == (14int, 'o', 'r', 'e', 'i'));
    assert(name_marks(slot_json_name(26)) == (18int, 'o', 'k', 'r', 'P'));
    assert(name_marks(slot_json_name(27)) == (15int, 'o', 'r', 'w', 'a'));
    assert(name_marks(slot_json_name(28)) == (21int, 'o', 'e', 'a', 'n'));
    assert(name_marks(slot_json_name(29)) == (29int, 'o', 'e', 'r', 'p'));
    assert(name_marks(slot_json_name(30)) == (22int, 'o', 's', 'c', 't'));
    assert(name_marks(slot_json_name(31)) == (10int, 'o', 't', '2', '2'));
    assert(name_marks(slot_json_name(32)) == (14int, 'o', 'n', 'e', 'A'));
    assert(name_marks(slot_json_name(33)) == (20int, 'o', 'h', 'u', 'e'));
    assert(name_marks(slot_json_name(34)) == (26int, 'o', 'e', 'n', 'n'));
    assert(name_marks(slot_json_name(35)) == (14int, 'p', 'e', 'd', 'h'));
    assert(name_marks(slot_json_name(36)) == (16int, 'p', 'e', 'C', 'p'));
    assert(name_marks(slot_json_name(37)) == (14int, 'p', 't', 'd', 'o'));
    assert(name_marks(slot_json_name(38)) == (12int, 'p', 't', 'r', 'd'));
    assert(name_marks(slot_json_name(39)) == (20int, 'r', 'e', 'o', 'p'));
    assert(name_marks(slot_json_name(40)) == (16int, 'r', 'd', 't', 'n'));
    assert(name_marks(slot_json_name(41)) == (16int, 'r', 't', 't', 'n'));
    assert(name_marks(slot_json_name(42)) == (32int, 'r', 'd', 'f', 'u'));
    assert(name_marks(slot_json_name(43)) == (18int, 'r', 'y', 'i', 'e'));
    assert(name_marks(slot_json_name(44)) == (12int, 's', 't', 'L', 'o'));
    assert(name_marks(slot_json_name(45)) == (12int, 'u', 'd', 'o', 'r'));
    assert forall|i: int, j: int|
        0 <= i < crate::slot_count() && 0 <= j < crate::slot_count() && i != j implies slot_json_name(
        i,
    ) != slot_json_name(j) by {
        assert(name_marks(slot_json_name(i)) != name_marks(slot_json_name(j)));
    };
}

} // verus!
