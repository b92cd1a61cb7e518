use vstd::prelude::*;

verus! {

/// Tag naming the light-client algorithm a client runs.
#[derive(Debug)]
pub struct ClientType(pub String);

impl View for ClientType {
    type V = Seq<char>;

    open spec fn view(&self) -> Seq<char> {
        self.0@
    }
}

impl ClientType {
    pub fn new(tag: String) -> (r: ClientType)
        ensures
            r@ == tag@,
    {
        ClientType(tag)
    }

    pub fn as_str(&self) -> (r: &str)
        ensures
            r@ == self@,
    {
        self.0.as_str()
    }
}

impl Clone for ClientType {
    fn clone(&self) -> (r: Self)
        ensures
            r == *self,
    {
        ClientType(self.0.clone())
    }
}

/// Mathematical content of a `ClientId`.
#[verifier::ext_equal]
pub struct ClientIdV {
    pub client_type: Seq<char>,
    pub counter: u64,
}

/// Identifier of one tracked client on a chain: the client-type tag plus the
/// sequence number the chain assigned when the client was established. Never
/// mutated once created.
#[derive(Debug)]
pub struct ClientId {
    pub client_type: ClientType,
    pub counter: u64,
}

impl View for ClientId {
    type V = ClientIdV;

    open spec fn view(&self) -> ClientIdV {
        ClientIdV { client_type: self.client_type@, counter: self.counter }
    }
}

impl ClientId {
    pub fn new(client_type: ClientType, counter: u64) -> (r: ClientId)
        ensures
            r@ == (ClientIdV { client_type: client_type@, counter }),
    {
        ClientId { client_type, counter }
    }
}

impl Clone for ClientId {
    fn clone(&self) -> (r: Self)
        ensures
            r == *self,
    {
        ClientId { client_type: self.client_type.clone(), counter: self.counter }
    }
}

impl PartialEq for ClientId {
    fn eq(&self, other: &ClientId) -> (r: bool) {
        self.client_type.0 == other.client_type.0 && self.counter == other.counter
    }
}

impl vstd::std_specs::cmp::PartialEqSpecImpl for ClientId {
    open spec fn obeys_eq_spec() -> bool {
        true
    }

    open spec fn eq_spec(&self, other: &ClientId) -> bool {
        self@ == other@
    }
}

/// Mathematical content of a `ChainId`.
#[verifier::ext_equal]
pub struct ChainIdV {
    pub name: Seq<char>,
    pub revision_number: u64,
}

/// Identifier of a chain: a human-readable name and the revision number the
/// chain currently runs under.
#[derive(Debug)]
pub struct ChainId {
    pub name: String,
    pub revision_number: u64,
}

impl View for ChainId {
    type V = ChainIdV;

    open spec fn view(&self) -> ChainIdV {
        ChainIdV { name: self.name@, revision_number: self.revision_number }
    }
}

impl ChainId {
    pub fn new(name: String, revision_number: u64) -> (r: ChainId)
        ensures
            r@ == (ChainIdV { name: name@, revision_number }),
    {
        ChainId { name, revision_number }
    }
}

impl Clone for ChainId {
    fn clone(&self) -> (r: Self)
        ensures
            r == *self,
    {
        ChainId { name: self.name.clone(), revision_number: self.revision_number }
    }
}

/// Identity under which a chain signs the messages it emits.
#[derive(Debug)]
pub struct Signer(pub String);

impl View for Signer {
    type V = Seq<char>;

    open spec fn view(&self) -> Seq<char> {
        self.0@
    }
}

impl Signer {
    pub fn new(id: String) -> (r: Signer)
        ensures
            r@ == id@,
    {
        Signer(id)
    }
}

impl Clone for Signer {
    fn clone(&self) -> (r: Self)
        ensures
            r == *self,
    {
        Signer(self.0.clone())
    }
}

} // verus!
