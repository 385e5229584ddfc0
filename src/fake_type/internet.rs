use vstd::prelude::*;
use crate::error::{CompileError, CompileErrorV};
use crate::fake_type::{FakeElement, FakeWithRangeElement};
use crate::generator::{is_outcome, Gen, RangedKind, ScalarKind};
use crate::json::Json;
use crate::lang::get_language;
use crate::provider::{
    draw_domain_suffix, draw_free_email, draw_free_email_provider, draw_ip, draw_ip_v4, draw_ip_v6,
    draw_mac_address, draw_password, draw_safe_email, draw_user_agent, draw_username,
};

verus! {

/// A free e-mail provider domain.
#[derive(Debug)]
pub struct FreeEmailProvider {
    pub _fake_type: String,
    pub lang: String,
}

impl View for FreeEmailProvider {
    type V = Gen;

    open spec fn view(&self) -> Gen {
        Gen::Scalar { scalar: ScalarKind::FreeEmailProvider, lang: self.lang@ }
    }
}

impl FakeElement for FreeEmailProvider {
    fn new(_fake_type: String, lang: String) -> (r: Self)
        ensures
            r._fake_type == _fake_type,
            r.lang == lang,
    {
        Self { _fake_type, lang }
    }
}

impl FreeEmailProvider {
    /// Draws one value.
    pub fn fake_apply(&self) -> String {
        draw_free_email_provider(get_language(self.lang.as_str()))
    }

    /// Draws one value as a JSON string.
    pub fn to_value(&self) -> (r: Json)
        ensures
            is_outcome(self@, r@),
    {
        Json::String(self.fake_apply())
    }
}

/// A domain suffix.
#[derive(Debug)]
pub struct DomainSuffix {
    pub _fake_type: String,
    pub lang: String,
}

impl View for DomainSuffix {
    type V = Gen;

    open spec fn view(&self) -> Gen {
        Gen::Scalar { scalar: ScalarKind::DomainSuffix, lang: self.lang@ }
    }
}

impl FakeElement for DomainSuffix {
    fn new(_fake_type: String, lang: String) -> (r: Self)
        ensures
            r._fake_type == _fake_type,
            r.lang == lang,
    {
        Self { _fake_type, lang }
    }
}

impl DomainSuffix {
    /// Draws one value.
    pub fn fake_apply(&self) -> String {
        draw_domain_suffix(get_language(self.lang.as_str()))
    }

    /// Draws one value as a JSON string.
    pub fn to_value(&self) -> (r: Json)
        ensures
            is_outcome(self@, r@),
    {
        Json::String(self.fake_apply())
    }
}

/// An address at a free e-mail provider.
#[derive(Debug)]
pub struct FreeEmail {
    pub _fake_type: String,
    pub lang: String,
}

impl View for FreeEmail {
    type V = Gen;

    open spec fn view(&self) -> Gen {
        Gen::Scalar { scalar: ScalarKind::FreeEmail, lang: self.lang@ }
    }
}

impl FakeElement for FreeEmail {
    fn new(_fake_type: String, lang: String) -> (r: Self)
        ensures
            r._fake_type == _fake_type,
            r.lang == lang,
    {
        Self { _fake_type, lang }
    }
}

impl FreeEmail {
    /// Draws one value.
    pub fn fake_apply(&self) -> String {
        draw_free_email(get_language(self.lang.as_str()))
    }

    /// Draws one value as a JSON string.
    pub fn to_value(&self) -> (r: Json)
        ensures
            is_outcome(self@, r@),
    {
        Json::String(self.fake_apply())
    }
}

/// An address at an example domain.
#[derive(Debug)]
pub struct SafeEmail {
    pub _fake_type: String,
    pub lang: String,
}

impl View for SafeEmail {
    type V = Gen;

    open spec fn view(&self) -> Gen {
        Gen::Scalar { scalar: ScalarKind::SafeEmail, lang: self.lang@ }
    }
}

impl FakeElement for SafeEmail {
    fn new(_fake_type: String, lang: String) -> (r: Self)
        ensures
            r._fake_type == _fake_type,
            r.lang == lang,
    {
        Self { _fake_type, lang }
    }
}

impl SafeEmail {
    /// Draws one value.
    pub fn fake_apply(&self) -> String {
        draw_safe_email(get_language(self.lang.as_str()))
    }

    /// Draws one value as a JSON string.
    pub fn to_value(&self) -> (r: Json)
        ensures
            is_outcome(self@, r@),
    {
        Json::String(self.fake_apply())
    }
}

/// A user name.
#[derive(Debug)]
pub struct Username {
    pub _fake_type: String,
    pub lang: String,
}

impl View for Username {
    type V = Gen;

    open spec fn view(&self) -> Gen {
        Gen::Scalar { scalar: ScalarKind::Username, lang: self.lang@ }
    }
}

impl FakeElement for Username {
    fn new(_fake_type: String, lang: String) -> (r: Self)
        ensures
            r._fake_type == _fake_type,
            r.lang == lang,
    {
        Self { _fake_type, lang }
    }
}

impl Username {
    /// Draws one value.
    pub fn fake_apply(&self) -> String {
        draw_username(get_language(self.lang.as_str()))
    }

    /// Draws one value as a JSON string.
    pub fn to_value(&self) -> (r: Json)
        ensures
            is_outcome(self@, r@),
    {
        Json::String(self.fake_apply())
    }
}

/// A password of random characters.
#[derive(Debug)]
pub struct Password {
    pub _fake_type: String,
    pub lang: String,
    pub min: usize,
    pub max: usize,
}

impl View for Password {
    type V = Gen;

    open spec fn view(&self) -> Gen {
        Gen::Ranged { ranged: RangedKind::Password, lang: self.lang@, min: self.min, max: self.max }
    }
}

impl FakeWithRangeElement for Password {
    fn new(_fake_type: String, lang: String, min: usize, max: usize) -> (r: Result<Self, CompileError>)
        ensures
            min < max <==> r is Ok,
            r matches Ok(g) ==> g._fake_type == _fake_type && g.lang == lang && g.min == min
                && g.max == max,
            r matches Err(e) ==> e@ == CompileErrorV::InvalidRange(min, max),
    {
        if min >= max {
            Err(CompileError::InvalidRange(min, max))
        } else {
            Ok(Self { _fake_type, lang, min, max })
        }
    }
}

impl Password {
    /// Draws a password whose character count lies in `min..max`.
    pub fn fake_apply(&self) -> (r: String)
        requires
            self.min < self.max,
        ensures
            self.min <= r@.len() < self.max,
    {
        draw_password(get_language(self.lang.as_str()), self.min, self.max)
    }

    /// Draws a password as a JSON string.
    pub fn to_value(&self) -> (r: Json)
        requires
            self.min < self.max,
        ensures
            is_outcome(self@, r@),
    {
        Json::String(self.fake_apply())
    }
}

/// An IPv4 address.
#[derive(Debug)]
pub struct IPv4 {
    pub _fake_type: String,
    pub lang: String,
}

impl View for IPv4 {
    type V = Gen;

    open spec fn view(&self) -> Gen {
        Gen::Scalar { scalar: ScalarKind::IPv4, lang: self.lang@ }
    }
}

impl FakeElement for IPv4 {
    fn new(_fake_type: String, lang: String) -> (r: Self)
        ensures
            r._fake_type == _fake_type,
            r.lang == lang,
    {
        Self { _fake_type, lang }
    }
}

impl IPv4 {
    /// Draws one value.
    pub fn fake_apply(&self) -> String {
        draw_ip_v4(get_language(self.lang.as_str()))
    }

    /// Draws one value as a JSON string.
    pub fn to_value(&self) -> (r: Json)
        ensures
            is_outcome(self@, r@),
    {
        Json::String(self.fake_apply())
    }
}

/// An IPv6 address.
#[derive(Debug)]
pub struct IPv6 {
    pub _fake_type: String,
    pub lang: String,
}

impl View for IPv6 {
    type V = Gen;

    open spec fn view(&self) -> Gen {
        Gen::Scalar { scalar: ScalarKind::IPv6, lang: self.lang@ }
    }
}

impl FakeElement for IPv6 {
    fn new(_fake_type: String, lang: String) -> (r: Self)
        ensures
            r._fake_type == _fake_type,
            r.lang == lang,
    {
        Self { _fake_type, lang }
    }
}

impl IPv6 {
    /// Draws one value.
    pub fn fake_apply(&self) -> String {
        draw_ip_v6(get_language(self.lang.as_str()))
    }

    /// Draws one value as a JSON string.
    pub fn to_value(&self) -> (r: Json)
        ensures
            is_outcome(self@, r@),
    {
        Json::String(self.fake_apply())
    }
}

/// An IPv4 or IPv6 address.
#[derive(Debug)]
pub struct IP {
    pub _fake_type: String,
    pub lang: String,
}

impl View for IP {
    type V = Gen;

    open spec fn view(&self) -> Gen {
        Gen::Scalar { scalar: ScalarKind::IP, lang: self.lang@ }
    }
}

impl FakeElement for IP {
    fn new(_fake_type: String, lang: String) -> (r: Self)
        ensures
            r._fake_type == _fake_type,
            r.lang == lang,
    {
        Self { _fake_type, lang }
    }
}

impl IP {
    /// Draws one value.
    pub fn fake_apply(&self) -> String {
        draw_ip(get_language(self.lang.as_str()))
    }

    /// Draws one value as a JSON string.
    pub fn to_value(&self) -> (r: Json)
        ensures
            is_outcome(self@, r@),
    {
        Json::String(self.fake_apply())
    }
}

/// A MAC address.
#[derive(Debug)]
pub struct MACAddress {
    pub _fake_type: String,
    pub lang: String,
}

impl View for MACAddress {
    type V = Gen;

    open spec fn view(&self) -> Gen {
        Gen::Scalar { scalar: ScalarKind::MACAddress, lang: self.lang@ }
    }
}

impl FakeElement for MACAddress {
    fn new(_fake_type: String, lang: String) -> (r: Self)
        ensures
            r._fake_type == _fake_type,
            r.lang == lang,
    {
        Self { _fake_type, lang }
    }
}

impl MACAddress {
    /// Draws one value.
    pub fn fake_apply(&self) -> String {
        draw_mac_address(get_language(self.lang.as_str()))
    }

    /// Draws one value as a JSON string.
    pub fn to_value(&self) -> (r: Json)
        ensures
            is_outcome(self@, r@),
    {
        Json::String(self.fake_apply())
    }
}

/// A browser user agent string.
#[derive(Debug)]
pub struct UserAgent {
    pub _fake_type: String,
    pub lang: String,
}

impl View for UserAgent {
    type V = Gen;

    open spec fn view(&self) -> Gen {
        Gen::Scalar { scalar: ScalarKind::UserAgent, lang: self.lang@ }
    }
}

impl FakeElement for UserAgent {
    fn new(_fake_type: String, lang: String) -> (r: Self)
        ensures
            r._fake_type == _fake_type,
            r.lang == lang,
    {
        Self { _fake_type, lang }
    }
}

impl UserAgent {
    /// Draws one value.
    pub fn fake_apply(&self) -> String {
        draw_user_agent(get_language(self.lang.as_str()))
    }

    /// Draws one value as a JSON string.
    pub fn to_value(&self) -> (r: Json)
        ensures
            is_outcome(self@, r@),
    {
        Json::String(self.fake_apply())
    }
}

} // verus!
