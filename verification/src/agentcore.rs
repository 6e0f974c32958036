//! `AgentCoreConfig`: the target of an AWS Bedrock AgentCore runtime, read from
//! its ARN, and the host and path of its invocation endpoint.

use vstd::prelude::*;
use vstd::string::*;
use vstd::utf8::encode_utf8;

use crate::jwk::opt_view;
use crate::text::{chars_of, ranges_view, split_char, split_ranges, substring};

verus! {

#[derive(Debug, Clone)]
pub struct AgentCoreConfig {
    pub agent_runtime_arn: String,
    pub qualifier: Option<String>,
    pub region: String,
    pub account_id: String,
}

pub struct AgentCoreConfigView {
    pub agent_runtime_arn: Seq<char>,
    pub qualifier: Option<Seq<char>>,
    pub region: Seq<char>,
    pub account_id: Seq<char>,
}

impl View for AgentCoreConfig {
    type V = AgentCoreConfigView;

    open spec fn view(&self) -> AgentCoreConfigView {
        AgentCoreConfigView {
            agent_runtime_arn: self.agent_runtime_arn@,
            qualifier: opt_view(self.qualifier),
            region: self.region@,
            account_id: self.account_id@,
        }
    }
}

/// Why an ARN was refused; each variant holds the ARN.
#[derive(Debug)]
pub enum AgentCoreError {
    /// Fewer than five `:`-separated fields.
    InvalidArn(String),
    /// The service field is not `bedrock-agentcore`.
    UnexpectedService(String),
}

pub enum AgentCoreErrorView {
    InvalidArn(Seq<char>),
    UnexpectedService(Seq<char>),
}

impl View for AgentCoreError {
    type V = AgentCoreErrorView;

    open spec fn view(&self) -> AgentCoreErrorView {
        match self {
            AgentCoreError::InvalidArn(a) => AgentCoreErrorView::InvalidArn(a@),
            AgentCoreError::UnexpectedService(a) => AgentCoreErrorView::UnexpectedService(a@),
        }
    }
}

impl AgentCoreError {
    /// The text of the error.
    pub fn message(&self) -> (m: String)
        ensures
            m@ == match self@ {
                AgentCoreErrorView::InvalidArn(a) => "invalid AgentCore ARN: "@ + a,
                AgentCoreErrorView::UnexpectedService(a) => "invalid AgentCore ARN (expected service bedrock-agentcore): "@ + a,
            },
    {
        match self {
            AgentCoreError::InvalidArn(a) => {
                let mut m = String::from_str("invalid AgentCore ARN: ");
                m.append(a.as_str());
                m
            },
            AgentCoreError::UnexpectedService(a) => {
                let mut m = String::from_str(
                    "invalid AgentCore ARN (expected service bedrock-agentcore): ",
                );
                m.append(a.as_str());
                m
            },
        }
    }
}

/// The configuration read from an ARN `arn:aws:bedrock-agentcore:{region}:{accountId}:runtime/{runtimeId}`:
/// at least five `:`-separated fields, the third `bedrock-agentcore`, the
/// fourth the region and the fifth the account. (`splitn(6, ':')` and
/// `split(':')` agree on the first five fields.)
pub open spec fn agentcore_config_of(arn: Seq<char>, qualifier: Option<Seq<char>>) -> Result<
    AgentCoreConfigView,
    AgentCoreErrorView,
> {
    let parts = split_char(arn, ':');
    if parts.len() < 5 {
        Err(AgentCoreErrorView::InvalidArn(arn))
    } else if parts[2] != "bedrock-agentcore"@ {
        Err(AgentCoreErrorView::UnexpectedService(arn))
    } else {
        Ok(
            AgentCoreConfigView {
                agent_runtime_arn: arn,
                qualifier,
                region: parts[3],
                account_id: parts[4],
            },
        )
    }
}

/// Whether a byte is an ASCII letter or digit.
pub open spec fn is_ascii_alphanumeric(b: u8) -> bool {
    (48 <= b <= 57) || (65 <= b <= 90) || (97 <= b <= 122)
}

/// An upper-case hexadecimal digit.
pub open spec fn hex_digit(n: u8) -> char {
    if n < 10 {
        (48 + n) as char
    } else {
        (55 + n) as char
    }
}

/// One byte, percent-encoded with the `NON_ALPHANUMERIC` set.
pub open spec fn percent_encode_byte(b: u8) -> Seq<char> {
    if is_ascii_alphanumeric(b) {
        seq![b as char]
    } else {
        seq!['%', hex_digit(b / 16), hex_digit(b % 16)]
    }
}

/// Percent-encoding of bytes with the `NON_ALPHANUMERIC` set: an ASCII letter
/// or digit stands for itself, every other byte becomes `%` and two upper-case
/// hexadecimal digits.
pub open spec fn percent_encode_bytes(bytes: Seq<u8>) -> Seq<char>
    decreases bytes.len(),
{
    if bytes.len() == 0 {
        seq![]
    } else {
        percent_encode_byte(bytes[0]) + percent_encode_bytes(bytes.drop_first())
    }
}

/// `percent_encoding::utf8_percent_encode(text, NON_ALPHANUMERIC)`, written out.
///
/// The contract states the crate's documented behaviour: the UTF-8 bytes of the
/// text, each ASCII letter or digit kept and every other byte written `%XX`
/// with upper-case hexadecimal digits.
#[verifier::external_body]
fn percent_encode_non_alphanumeric(text: &str) -> (r: String)
    ensures
        r@ == percent_encode_bytes(encode_utf8(text@)),
{
    percent_encoding::utf8_percent_encode(text, percent_encoding::NON_ALPHANUMERIC).to_string()
}

impl AgentCoreConfig {
    /// Reads the configuration from an AgentCore runtime ARN
    /// (`arn:aws:bedrock-agentcore:{region}:{accountId}:runtime/{runtimeId}`).
    pub fn new(arn: String, qualifier: Option<String>) -> (r: Result<Self, AgentCoreError>)
        ensures
            match (r, agentcore_config_of(arn@, opt_view(qualifier))) {
                (Ok(c), Ok(v)) => c@ == v,
                (Err(e), Err(v)) => e@ == v,
                _ => false,
            },
    {
        let v = chars_of(arn.as_str());
        let parts = split_ranges(&v, 0, v.len(), ':');
        assert(v@.subrange(0, v@.len() as int) =~= v@);
        let ghost ps = ranges_view(v@, parts@);
        if parts.len() < 5 {
            return Err(AgentCoreError::InvalidArn(arn));
        }
        let (sa, sb) = parts[2];
        assert(ps[2] == v@.subrange(sa as int, sb as int));
        let service = substring(arn.as_str(), sa, sb);
        if service != String::from_str("bedrock-agentcore") {
            return Err(AgentCoreError::UnexpectedService(arn));
        }
        let (ra, rb) = parts[3];
        assert(ps[3] == v@.subrange(ra as int, rb as int));
        let region = substring(arn.as_str(), ra, rb);
        let (aa, ab) = parts[4];
        assert(ps[4] == v@.subrange(aa as int, ab as int));
        let account_id = substring(arn.as_str(), aa, ab);
        Ok(AgentCoreConfig { region, account_id, agent_runtime_arn: arn, qualifier })
    }

    /// The endpoint host: `bedrock-agentcore.{region}.amazonaws.com`.
    pub fn get_host(&self) -> (h: String)
        ensures
            h@ == "bedrock-agentcore."@ + self.region@ + ".amazonaws.com"@,
    {
        let mut h = String::from_str("bedrock-agentcore.");
        h.append(self.region.as_str());
        h.append(".amazonaws.com");
        h
    }

    /// The invocation path: the percent-encoded ARN under `/runtimes/`, with the
    /// qualifier as a query parameter where there is one.
    ///
    /// The API accepts either the runtime ARN alone (in the path) or agent id and
    /// account id, not both; the ARN is in the path, so no account id is added.
    pub fn get_path(&self) -> (p: String)
        ensures
            p@ == "/runtimes/"@ + percent_encode_bytes(encode_utf8(self.agent_runtime_arn@))
                + "/invocations"@ + match self.qualifier {
                Some(q) => "?qualifier="@ + q@,
                None => seq![],
            },
    {
        let encoded = percent_encode_non_alphanumeric(self.agent_runtime_arn.as_str());
        let mut p = String::from_str("/runtimes/");
        p.append(encoded.as_str());
        p.append("/invocations");
        match &self.qualifier {
            Some(q) => {
                p.append("?qualifier=");
                p.append(q.as_str());
            },
            None => {},
        }
        p
    }
}

} // verus!
