use vstd::prelude::*;

verus! {

/// Mathematical model of key material: a term that records how the value was
/// produced. Two terms are equal exactly when they were produced by the same
/// operations from the same inputs.
pub enum Term {
    Bytes(Seq<u8>),
    Kdf(Box<Term>, Seq<u8>),
    Mac(Box<Term>, Seq<u8>),
    EccPriv(Box<Term>),
    EccPub(Box<Term>),
    Sha256(Box<Term>),
    Sha384(Box<Term>),
}

/// The shape of a piece of key material; kept private so that no caller can
/// take material apart and reach the inputs it was produced from.
enum Node {
    Bytes(Vec<u8>),
    Kdf(Box<Node>, Vec<u8>),
    Mac(Box<Node>, Vec<u8>),
    EccPriv(Box<Node>),
    EccPub(Box<Node>),
    Sha256(Box<Node>),
    Sha384(Box<Node>),
}

impl Node {
    spec fn term(&self) -> Term
        decreases self,
    {
        match self {
            Node::Bytes(b) => Term::Bytes(b@),
            Node::Kdf(k, l) => Term::Kdf(Box::new(k.term()), l@),
            Node::Mac(k, d) => Term::Mac(Box::new(k.term()), d@),
            Node::EccPriv(s) => Term::EccPriv(Box::new(s.term())),
            Node::EccPub(s) => Term::EccPub(Box::new(s.term())),
            Node::Sha256(m) => Term::Sha256(Box::new(m.term())),
            Node::Sha384(m) => Term::Sha384(Box::new(m.term())),
        }
    }

    fn duplicate(&self) -> (r: Node)
        ensures
            r.term() == self.term(),
        decreases self,
    {
        match self {
            Node::Bytes(b) => Node::Bytes(copy_bytes(b)),
            Node::Kdf(k, l) => Node::Kdf(Box::new(k.duplicate()), copy_bytes(l)),
            Node::Mac(k, d) => Node::Mac(Box::new(k.duplicate()), copy_bytes(d)),
            Node::EccPriv(s) => Node::EccPriv(Box::new(s.duplicate())),
            Node::EccPub(s) => Node::EccPub(Box::new(s.duplicate())),
            Node::Sha256(m) => Node::Sha256(Box::new(m.duplicate())),
            Node::Sha384(m) => Node::Sha384(Box::new(m.duplicate())),
        }
    }

    fn same(&self, other: &Node) -> (r: bool)
        ensures
            r == (self.term() == other.term()),
        decreases self,
    {
        match (self, other) {
            (Node::Bytes(a), Node::Bytes(b)) => bytes_eq(a, b),
            (Node::Kdf(k1, l1), Node::Kdf(k2, l2)) => bytes_eq(l1, l2) && k1.same(k2),
            (Node::Mac(k1, d1), Node::Mac(k2, d2)) => bytes_eq(d1, d2) && k1.same(k2),
            (Node::EccPriv(a), Node::EccPriv(b)) => a.same(b),
            (Node::EccPub(a), Node::EccPub(b)) => a.same(b),
            (Node::Sha256(a), Node::Sha256(b)) => a.same(b),
            (Node::Sha384(a), Node::Sha384(b)) => a.same(b),
            _ => false,
        }
    }
}

/// Key material as held by the key vault or handed out by an engine.
/// It is opaque: it can be built, copied and compared, never taken apart,
/// so what an engine hands out does not expose the slot content it was
/// computed from. Its view records how the value was produced.
pub struct Material {
    node: Node,
}

impl View for Material {
    type V = Term;

    closed spec fn view(&self) -> Term {
        self.node.term()
    }
}

impl Material {
    /// Explicit key or message bytes supplied by the caller.
    pub fn bytes(b: Vec<u8>) -> (r: Material)
        ensures
            r@ == Term::Bytes(b@),
    {
        Material { node: Node::Bytes(b) }
    }

    /// Output of the HMAC-based derivation keyed by `key` with `label`.
    pub fn kdf(key: Material, label: Vec<u8>) -> (r: Material)
        ensures
            r@ == Term::Kdf(Box::new(key@), label@),
    {
        Material { node: Node::Kdf(Box::new(key.node), label) }
    }

    /// HMAC-384 tag of `data` under `key`.
    pub fn mac(key: Material, data: Vec<u8>) -> (r: Material)
        ensures
            r@ == Term::Mac(Box::new(key@), data@),
    {
        Material { node: Node::Mac(Box::new(key.node), data) }
    }

    /// ECC-384 private key generated from `seed`.
    pub fn ecc_priv(seed: Material) -> (r: Material)
        ensures
            r@ == Term::EccPriv(Box::new(seed@)),
    {
        Material { node: Node::EccPriv(Box::new(seed.node)) }
    }

    /// ECC-384 public key generated from `seed`.
    pub fn ecc_pub(seed: Material) -> (r: Material)
        ensures
            r@ == Term::EccPub(Box::new(seed@)),
    {
        Material { node: Node::EccPub(Box::new(seed.node)) }
    }

    /// SHA-256 digest of `m`.
    pub fn sha256(m: Material) -> (r: Material)
        ensures
            r@ == Term::Sha256(Box::new(m@)),
    {
        Material { node: Node::Sha256(Box::new(m.node)) }
    }

    /// SHA-384 digest of `m`.
    pub fn sha384(m: Material) -> (r: Material)
        ensures
            r@ == Term::Sha384(Box::new(m@)),
    {
        Material { node: Node::Sha384(Box::new(m.node)) }
    }

    /// A copy of this material.
    pub fn duplicate(&self) -> (r: Material)
        ensures
            r@ == self@,
    {
        Material { node: self.node.duplicate() }
    }

    /// Whether two pieces of material are the same value.
    pub fn same(&self, other: &Material) -> (r: bool)
        ensures
            r == (self@ == other@),
    {
        self.node.same(&other.node)
    }
}

/// A byte-for-byte copy.
pub fn copy_bytes(v: &Vec<u8>) -> (r: Vec<u8>)
    ensures
        r@ == v@,
{
    let mut r: Vec<u8> = Vec::new();
    let mut i: usize = 0;
    while i < v.len()
        invariant
            i <= v.len(),
            r@ == v@.subrange(0, i as int),
        decreases v.len() - i,
    {
        r.push(v[i]);
        i = i + 1;
        assert(r@ =~= v@.subrange(0, i as int));
    }
    assert(r@ =~= v@);
    r
}

/// Byte-wise equality.
pub fn bytes_eq(a: &Vec<u8>, b: &Vec<u8>) -> (r: bool)
    ensures
        r == (a@ == b@),
{
    if a.len() != b.len() {
        return false;
    }
    let mut i: usize = 0;
    while i < a.len()
        invariant
            i <= a.len(),
            a.len() == b.len(),
            a@.subrange(0, i as int) == b@.subrange(0, i as int),
        decreases a.len() - i,
    {
        if a[i] != b[i] {
            assert(a@[i as int] != b@[i as int]);
            return false;
        }
        assert(a@.subrange(0, i + 1) =~= a@.subrange(0, i as int).push(a@[i as int]));
        assert(b@.subrange(0, i + 1) =~= b@.subrange(0, i as int).push(b@[i as int]));
        i = i + 1;
    }
    assert(a@ =~= a@.subrange(0, i as int));
    assert(b@ =~= b@.subrange(0, i as int));
    true
}

/// A zero-filled buffer of `n` bytes.
pub fn zero_bytes(n: usize) -> (r: Vec<u8>)
    ensures
        r@ == Seq::new(n as nat, |i: int| 0u8),
{
    let mut r: Vec<u8> = Vec::new();
    let mut i: usize = 0;
    while i < n
        invariant
            i <= n,
            r@ == Seq::new(i as nat, |j: int| 0u8),
        decreases n - i,
    {
        r.push(0u8);
        i = i + 1;
        assert(r@ =~= Seq::new(i as nat, |j: int| 0u8));
    }
    r
}

} // verus!
