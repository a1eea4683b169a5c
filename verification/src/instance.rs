//! One xmrig process, and the credentials of its HTTP API.

use crate::shutdown::Switch;
use vstd::prelude::*;

verus! {

/// What a manager knows of one xmrig process.
pub struct InstanceView {
    /// Port of the HTTP API.
    pub http_port: u16,
    /// Token that the HTTP API asks for.
    pub http_token: Seq<char>,
    /// Whether this instance has been told to shut down.
    pub shut_down: bool,
    /// Id of the process wrapper, once it has been started.
    pub wrapper_pid: Option<u32>,
}

/// One xmrig process.
pub struct XmrigInstance {
    http_port: u16,
    http_token: String,
    shutdown: Switch,
    wrapper_pid: Option<u32>,
}

impl View for XmrigInstance {
    type V = InstanceView;

    closed spec fn view(&self) -> InstanceView {
        InstanceView {
            http_port: self.http_port,
            http_token: self.http_token@,
            shut_down: crate::shutdown::is_on(self.shutdown),
            wrapper_pid: self.wrapper_pid,
        }
    }
}

/// An instance before its process has been started.
pub open spec fn fresh_instance(http_port: u16, http_token: Seq<char>) -> InstanceView {
    InstanceView { http_port, http_token, shut_down: false, wrapper_pid: None }
}

impl XmrigInstance {
    /// The channel of the switch that tells this instance to shut down.
    pub closed spec fn channel(self) -> int {
        crate::shutdown::channel(self.shutdown)
    }

    /// An instance whose process has not been started.
    pub fn new(http_port: u16, http_token: String) -> (instance: XmrigInstance)
        ensures
            instance@ == fresh_instance(http_port, http_token@),
    {
        XmrigInstance { http_port, http_token, shutdown: Switch::new(), wrapper_pid: None }
    }

    /// Port of the HTTP API.
    pub fn http_port(&self) -> (port: u16)
        ensures
            port == self@.http_port,
    {
        self.http_port
    }

    /// Token that the HTTP API asks for.
    pub fn http_token(&self) -> (token: &String)
        ensures
            token@ == self@.http_token,
    {
        &self.http_token
    }

    /// Id of the process wrapper, once it has been started.
    pub fn wrapper_pid(&self) -> (pid: Option<u32>)
        ensures
            pid == self@.wrapper_pid,
    {
        self.wrapper_pid
    }

    /// Notes that the process wrapper has been started.
    pub fn set_wrapper_pid(&mut self, pid: u32)
        ensures
            final(self)@ == (InstanceView { wrapper_pid: Some(pid), ..old(self)@ }),
            final(self).channel() == old(self).channel(),
    {
        self.wrapper_pid = Some(pid);
    }

    /// Tells the instance to shut down.
    pub fn shut_down(&mut self)
        ensures
            final(self)@ == (InstanceView { shut_down: true, ..old(self)@ }),
            final(self).channel() == old(self).channel(),
    {
        self.shutdown.trigger();
    }
}

/// A lowercase hexadecimal digit.
pub open spec fn is_hex(c: char) -> bool {
    '0' <= c <= '9' || 'a' <= c <= 'f'
}

/// A random UUID in its hyphenated form: groups of 8, 4, 4, 4 and 12 lowercase hexadecimal digits, of
/// which the one for the version is a 4, and the one for the variant is one of 8, 9, a and b.
pub open spec fn is_random_uuid(token: Seq<char>) -> bool {
    &&& token.len() == 36
    &&& forall|i: int|
        0 <= i < 36 ==> if i == 8 || i == 13 || i == 18 || i == 23 {
            #[trigger] token[i] == '-'
        } else {
            is_hex(token[i])
        }
    &&& token[14] == '4'
    &&& token[19] == '8' || token[19] == '9' || token[19] == 'a' || token[19] == 'b'
}

/// `uuid::Uuid::new_v4`, written out by its `to_string`, is a random UUID in its hyphenated form,
/// with lowercase digits. That two of them differ is a matter of chance, and is not claimed. It
/// panics where the system has no random numbers to give.
#[verifier::external_body]
pub(crate) fn new_token() -> (token: String)
    ensures
        is_random_uuid(token@),
{
    uuid::Uuid::new_v4().to_string()
}

/// A random UUID has 36 characters: hyphens at four places, a 4 for its version, one of 8, 9, a and b
/// for its variant, and lowercase hexadecimal digits everywhere else.
pub proof fn form_of_a_random_uuid(token: Seq<char>)
    requires
        is_random_uuid(token),
    ensures
        token.len() == 36,
        token[8] == '-' && token[13] == '-' && token[18] == '-' && token[23] == '-',
        token[14] == '4',
        token[19] == '8' || token[19] == '9' || token[19] == 'a' || token[19] == 'b',
        forall|i: int|
            0 <= i < 36 && i != 8 && i != 13 && i != 18 && i != 23 ==> '0' <= #[trigger] token[i]
                <= '9' || 'a' <= token[i] <= 'f',
{
}

} // verus!
