//! Boundary data: the login options handed to a presentation layer, and the
//! mapping from the homeserver's advertised authentication flows to them.

use vstd::prelude::*;
use crate::media::{mxc_to_https, resolve_spec};

verus! {

/// One authentication choice offered to the user.
pub struct LoginOption {
    login_type: String,
    provider: Option<String>,
    icon_url: Option<String>,
}

/// The observable value of a login option.
pub struct LoginOptionView {
    pub login_type: Seq<char>,
    pub provider: Option<Seq<char>>,
    pub icon_url: Option<Seq<char>>,
}

impl View for LoginOption {
    type V = LoginOptionView;

    closed spec fn view(&self) -> LoginOptionView {
        LoginOptionView {
            login_type: self.login_type@,
            provider: match self.provider {
                Option::Some(p) => Option::Some(p@),
                Option::None => Option::None,
            },
            icon_url: match self.icon_url {
                Option::Some(u) => Option::Some(u@),
                Option::None => Option::None,
            },
        }
    }
}

/// The option an identity provider with an icon reference yields: its icon
/// URL is the resolved reference, unauthenticated and without passthrough.
pub open spec fn sso_option_view(provider: Seq<char>, icon_mxc: Seq<char>) -> LoginOptionView {
    LoginOptionView {
        login_type: "SSO"@,
        provider: Some(provider),
        icon_url: Some(resolve_spec(icon_mxc, false, 0, 0, Seq::<char>::empty(), false)),
    }
}

/// The option an identity provider without an icon reference yields.
pub open spec fn sso_option_no_icon_view(provider: Seq<char>) -> LoginOptionView {
    LoginOptionView { login_type: "SSO"@, provider: Some(provider), icon_url: None }
}

/// The option a plain flow yields: just its kind.
pub open spec fn plain_option_view(login_type: Seq<char>) -> LoginOptionView {
    LoginOptionView { login_type: login_type, provider: None, icon_url: None }
}

impl LoginOption {
    /// A single-sign-on option whose icon reference is resolved through the
    /// media resolver.
    pub fn from_sso(provider: String, icon_mxc: String) -> (r: Self)
        ensures
            r@ == sso_option_view(provider@, icon_mxc@),
    {
        Self {
            login_type: String::from_str("SSO"),
            provider: Some(provider),
            icon_url: Some(mxc_to_https(icon_mxc, false, 0, 0, String::new(), false)),
        }
    }

    /// A single-sign-on option for a provider that advertises no icon.
    pub fn from_sso_without_icon(provider: String) -> (r: Self)
        ensures
            r@ == sso_option_no_icon_view(provider@),
    {
        Self { login_type: String::from_str("SSO"), provider: Some(provider), icon_url: None }
    }

    /// An option for any other flow kind, named by it.
    pub fn from_other(login_type: String) -> (r: Self)
        ensures
            r@ == plain_option_view(login_type@),
    {
        Self { login_type, provider: None, icon_url: None }
    }

    /// The flow kind this option stands for.
    pub fn kind(&self) -> (r: &String)
        ensures
            r@ == self@.login_type,
    {
        &self.login_type
    }

    /// The identity provider's name, for a single-sign-on option.
    pub fn provider_name(&self) -> (r: &Option<String>)
        ensures
            r is Some <==> self@.provider is Some,
            r matches Some(p) ==> self@.provider == Some(p@),
    {
        &self.provider
    }

    /// The resolved icon URL, where the provider advertised an icon.
    pub fn icon(&self) -> (r: &Option<String>)
        ensures
            r is Some <==> self@.icon_url is Some,
            r matches Some(u) ==> self@.icon_url == Some(u@),
    {
        &self.icon_url
    }
}

/// What a registered observer receives for one dispatched room message.
pub struct RoomMessage {}

/// One identity provider advertised by a single-sign-on flow.
pub struct SsoProvider {
    pub name: String,
    pub icon: Option<String>,
}

/// One advertised authentication flow, as discovery reads it off the wire.
pub enum LoginFlow {
    /// The password flow.
    Password,
    /// The single-sign-on flow, with its advertised identity providers.
    Sso(Vec<SsoProvider>),
    /// Any other or unknown flow kind; never a failure.
    Other,
}

/// The option one identity provider yields.
pub open spec fn provider_option_view(p: SsoProvider) -> LoginOptionView {
    match p.icon {
        Option::Some(icon) => sso_option_view(p.name@, icon@),
        Option::None => sso_option_no_icon_view(p.name@),
    }
}

/// The options a single-sign-on flow yields, one per provider in order; an
/// empty provider list yields nothing.
pub open spec fn sso_options_views(ps: Seq<SsoProvider>) -> Seq<LoginOptionView> {
    ps.map_values(|p: SsoProvider| provider_option_view(p))
}

/// The options one flow yields.
pub open spec fn flow_options_views(f: LoginFlow) -> Seq<LoginOptionView> {
    match f {
        LoginFlow::Password => seq![plain_option_view("Password"@)],
        LoginFlow::Sso(ps) => sso_options_views(ps@),
        LoginFlow::Other => Seq::empty(),
    }
}

/// The options a whole advertisement yields, in the homeserver's flow order.
pub open spec fn options_views(flows: Seq<LoginFlow>) -> Seq<LoginOptionView>
    decreases flows.len(),
{
    if flows.len() == 0 {
        Seq::empty()
    } else {
        options_views(flows.drop_last()) + flow_options_views(flows.last())
    }
}

/// The observable values of a sequence of options.
pub open spec fn views_of_options(os: Seq<LoginOption>) -> Seq<LoginOptionView> {
    os.map_values(|o: LoginOption| o@)
}

/// Maps the homeserver's advertised flows to the options presented to the
/// user: password flows as such, each identity provider of a single-sign-on
/// flow as its own entry, and unknown flows ignored.
pub fn login_options_from_flows(flows: &Vec<LoginFlow>) -> (r: Vec<LoginOption>)
    ensures
        views_of_options(r@) == options_views(flows@),
{
    let mut out: Vec<LoginOption> = Vec::new();
    let mut i: usize = 0;
    while i < flows.len()
        invariant
            i <= flows@.len(),
            views_of_options(out@) == options_views(flows@.subrange(0, i as int)),
        decreases flows@.len() - i,
    {
        let ghost out_before = out@;
        match &flows[i] {
            LoginFlow::Password => {
                out.push(LoginOption::from_other(String::from_str("Password")));
                proof {
                    assert(views_of_options(out@) =~= views_of_options(out_before).push(
                        plain_option_view("Password"@),
                    ));
                }
            },
            LoginFlow::Sso(ps) => {
                let mut j: usize = 0;
                while j < ps.len()
                    invariant
                        j <= ps@.len(),
                        flows@.len() > i,
                        flows@[i as int] matches LoginFlow::Sso(q) && q@ == ps@,
                        views_of_options(out@) == options_views(flows@.subrange(0, i as int))
                            + sso_options_views(ps@.subrange(0, j as int)),
                    decreases ps@.len() - j,
                {
                    let ghost inner_before = out@;
                    let p = &ps[j];
                    let opt = match &p.icon {
                        Option::Some(icon) => LoginOption::from_sso(p.name.clone(), icon.clone()),
                        Option::None => LoginOption::from_sso_without_icon(p.name.clone()),
                    };
                    out.push(opt);
                    j += 1;
                    proof {
                        assert(views_of_options(out@) =~= views_of_options(inner_before).push(
                            provider_option_view(ps@[j - 1]),
                        ));
                        assert(sso_options_views(ps@.subrange(0, j as int))
                            =~= sso_options_views(ps@.subrange(0, j - 1)).push(
                            provider_option_view(ps@[j - 1]),
                        ));
                        assert(views_of_options(out@) =~= options_views(
                            flows@.subrange(0, i as int),
                        ) + sso_options_views(ps@.subrange(0, j as int)));
                    }
                }
                proof {
                    assert(ps@.subrange(0, ps@.len() as int) =~= ps@);
                }
            },
            LoginFlow::Other => {},
        }
        i += 1;
        proof {
            assert(flows@.subrange(0, i as int).drop_last() =~= flows@.subrange(0, i - 1));
            assert(flows@.subrange(0, i as int).last() == flows@[i - 1]);
            match flows@[i - 1] {
                LoginFlow::Password => {
                    assert(views_of_options(out@) =~= options_views(flows@.subrange(0, i as int)));
                },
                LoginFlow::Sso(ps) => {
                    assert(views_of_options(out@) =~= options_views(flows@.subrange(0, i as int)));
                },
                LoginFlow::Other => {
                    assert(views_of_options(out@) =~= options_views(flows@.subrange(0, i as int)));
                },
            }
        }
    }
    proof {
        assert(flows@.subrange(0, flows@.len() as int) =~= flows@);
    }
    out
}

} // verus!
