//! Instances and their manifests: the text that records which name, kind,
//! game, loader and runtime versions an instance was provisioned with.
use vstd::prelude::*;
use crate::error::ProvisionError;
use crate::fabric;
use crate::java;
use crate::mc;
use crate::text::{
    decimal, field_line, is_plain_text, is_prefix_at, is_safe_name, lemma_decimal_plain,
    lemma_decimal_value, lemma_field_unique, lemma_prefix_concat, parse_decimal, plain_text,
    push_field, read_field, safe_name,
};

verus! {

#[derive(Clone, Copy, Debug, PartialEq, Eq, Structural)]
pub enum InstanceType {
    Client,
    Server,
}

impl InstanceType {
    pub open spec fn spec_label(self) -> Seq<char> {
        match self {
            InstanceType::Client => "Client"@,
            InstanceType::Server => "Server"@,
        }
    }

    pub open spec fn spec_dir_name(self) -> Seq<char> {
        match self {
            InstanceType::Client => "clients"@,
            InstanceType::Server => "servers"@,
        }
    }

    pub open spec fn spec_file_name(self) -> Seq<char> {
        match self {
            InstanceType::Client => "client.toml"@,
            InstanceType::Server => "server.toml"@,
        }
    }

    /// `Client` or `Server`, as the kind is shown.
    pub fn to_string(&self) -> (r: String)
        ensures
            r@ == self.spec_label(),
    {
        match self {
            InstanceType::Client => String::from_str("Client"),
            InstanceType::Server => String::from_str("Server"),
        }
    }

    /// The directory under the root that holds the instances of this kind.
    pub fn dir_name(&self) -> (r: &'static str)
        ensures
            r@ == self.spec_dir_name(),
    {
        match self {
            InstanceType::Client => "clients",
            InstanceType::Server => "servers",
        }
    }

    /// The manifest's file name in an instance directory of this kind.
    pub fn file_name(&self) -> (r: &'static str)
        ensures
            r@ == self.spec_file_name(),
    {
        match self {
            InstanceType::Client => "client.toml",
            InstanceType::Server => "server.toml",
        }
    }
}

/// The manifest text for the given fields, one line each, in this order.
pub open spec fn manifest_text(
    name: Seq<char>,
    kind: InstanceType,
    version: Seq<char>,
    fabric: Seq<char>,
    java: Seq<char>,
) -> Seq<char> {
    field_line("name"@, name) + field_line("type"@, kind.spec_label()) + field_line(
        "version"@,
        version,
    ) + field_line("fabric_version"@, fabric) + field_line("java_version"@, java)
}

/// Fields that a manifest can hold.
pub open spec fn manifest_fields_ok(
    name: Seq<char>,
    version: Seq<char>,
    fabric: Seq<char>,
    java: Seq<char>,
) -> bool {
    is_safe_name(name) && is_plain_text(version) && is_plain_text(fabric) && is_plain_text(java)
}

/// A manifest as it is read back: the versions by their identifiers.
#[derive(Debug)]
pub struct Manifest {
    pub name: String,
    pub kind: InstanceType,
    pub version: String,
    pub fabric_version: String,
    pub java_version: String,
}

impl Manifest {
    pub open spec fn wf(&self) -> bool {
        manifest_fields_ok(self.name@, self.version@, self.fabric_version@, self.java_version@)
    }

    pub open spec fn text(&self) -> Seq<char> {
        manifest_text(
            self.name@,
            self.kind,
            self.version@,
            self.fabric_version@,
            self.java_version@,
        )
    }

    /// The runtime major number that the manifest records; none where the
    /// field is not a number written in decimal without leading zeros.
    pub fn runtime_major(&self) -> (r: Option<usize>)
        ensures
            match r {
                Some(n) => decimal(n as nat) == self.java_version@,
                None => forall|n: usize| decimal(n as nat) != self.java_version@,
            },
    {
        parse_decimal(self.java_version.as_str())
    }

    /// The manifest text; fails where a field cannot be written as it is.
    pub fn to_toml(&self) -> (r: Result<String, ProvisionError>)
        ensures
            match r {
                Ok(t) => self.wf() && t@ == self.text(),
                Err(e) => !self.wf() && e == ProvisionError::InvalidManifest,
            },
    {
        if !(safe_name(self.name.as_str()) && plain_text(self.version.as_str()) && plain_text(
            self.fabric_version.as_str(),
        ) && plain_text(self.java_version.as_str())) {
            return Err(ProvisionError::InvalidManifest);
        }
        let label = self.kind.to_string();
        let mut out = String::new();
        push_field(&mut out, "name", self.name.as_str());
        push_field(&mut out, "type", label.as_str());
        push_field(&mut out, "version", self.version.as_str());
        push_field(&mut out, "fabric_version", self.fabric_version.as_str());
        push_field(&mut out, "java_version", self.java_version.as_str());
        assert(out@ =~= self.text());
        Ok(out)
    }
}

/// An instance: its name, its kind and the versions it runs.
#[derive(Debug)]
pub struct Instance {
    pub name: String,
    pub kind: InstanceType,
    pub version: mc::Version,
    pub fabric_version: fabric::Version,
    pub java_version: java::Version,
}

impl Instance {
    pub fn new(
        name: String,
        kind: InstanceType,
        version: mc::Version,
        fabric_version: fabric::Version,
        java_version: java::Version,
    ) -> (r: Self)
        ensures
            r.name == name,
            r.kind == kind,
            r.version == version,
            r.fabric_version == fabric_version,
            r.java_version == java_version,
    {
        Instance { name, kind, version, fabric_version, java_version }
    }

    /// The runtime major number as the manifest records it.
    pub open spec fn java_text(&self) -> Seq<char> {
        decimal(self.java_version.version as nat)
    }

    /// The instance can be recorded: a safe name and plain version
    /// identifiers.
    pub open spec fn wf(&self) -> bool {
        manifest_fields_ok(
            self.name@,
            self.version.version@,
            self.fabric_version.version@,
            self.java_text(),
        )
    }

    pub open spec fn text(&self) -> Seq<char> {
        manifest_text(
            self.name@,
            self.kind,
            self.version.version@,
            self.fabric_version.version@,
            self.java_text(),
        )
    }

    /// The manifest record of this instance.
    pub fn to_manifest(&self) -> (m: Manifest)
        ensures
            m.name@ == self.name@,
            m.kind == self.kind,
            m.version@ == self.version.version@,
            m.fabric_version@ == self.fabric_version.version@,
            m.java_version@ == self.java_text(),
            m.text() == self.text(),
            m.wf() == self.wf(),
    {
        Manifest {
            name: self.name.clone(),
            kind: self.kind,
            version: self.version.to_string(),
            fabric_version: self.fabric_version.to_string(),
            java_version: self.java_version.to_string(),
        }
    }

    /// The manifest text; fails where the name or a version identifier
    /// cannot be written as it is.
    pub fn to_toml(&self) -> (r: Result<String, ProvisionError>)
        ensures
            self.wf() <==> (is_safe_name(self.name@) && is_plain_text(self.version.version@)
                && is_plain_text(self.fabric_version.version@)),
            match r {
                Ok(t) => self.wf() && t@ == self.text(),
                Err(e) => !self.wf() && e == ProvisionError::InvalidManifest,
            },
    {
        proof {
            lemma_decimal_plain(self.java_version.version as nat);
        }
        self.to_manifest().to_toml()
    }
}

/// Two manifests with the same text hold the same fields.
pub proof fn lemma_manifest_text_injective(
    n1: Seq<char>,
    k1: InstanceType,
    v1: Seq<char>,
    f1: Seq<char>,
    j1: Seq<char>,
    n2: Seq<char>,
    k2: InstanceType,
    v2: Seq<char>,
    f2: Seq<char>,
    j2: Seq<char>,
)
    requires
        manifest_fields_ok(n1, v1, f1, j1),
        manifest_fields_ok(n2, v2, f2, j2),
        manifest_text(n1, k1, v1, f1, j1) == manifest_text(n2, k2, v2, f2, j2),
    ensures
        n1 == n2,
        k1 == k2,
        v1 == v2,
        f1 == f2,
        j1 == j2,
{
    reveal_strlit("Client");
    reveal_strlit("Server");
    let t = manifest_text(n1, k1, v1, f1, j1);
    lemma_manifest_lines(t, n1, k1, v1, f1, j1);
    lemma_manifest_lines(t, n2, k2, v2, f2, j2);
    lemma_field_unique(t, 0, "name"@, n1, n2);
    assert(is_plain_text(k1.spec_label()));
    assert(is_plain_text(k2.spec_label()));
    lemma_field_unique(t, field_line("name"@, n1).len() as int, "type"@, k1.spec_label(), k2.spec_label());
    if k1 != k2 {
        assert(k1.spec_label()[0] != k2.spec_label()[0]);
    }
    let p2: int = (field_line("name"@, n1).len() + field_line("type"@, k1.spec_label()).len()) as int;
    lemma_field_unique(t, p2, "version"@, v1, v2);
    let p3: int = p2 + field_line("version"@, v1).len() as int;
    lemma_field_unique(t, p3, "fabric_version"@, f1, f2);
    let p4: int = p3 + field_line("fabric_version"@, f1).len() as int;
    lemma_field_unique(t, p4, "java_version"@, j1, j2);
}

/// Reading back the manifest written for an instance gives the instance's
/// name and kind and the identifiers of its game, loader and runtime
/// versions.
pub proof fn lemma_manifest_round_trip(i: Instance, r: Option<Manifest>)
    requires
        i.wf(),
        parsed_as(i.text(), r),
    ensures
        r is Some,
        r->0.name@ == i.name@,
        r->0.kind == i.kind,
        r->0.version@ == i.version.version@,
        r->0.fabric_version@ == i.fabric_version.version@,
        r->0.java_version@ == i.java_text(),
        forall|n: nat| decimal(n) == r->0.java_version@ ==> n == i.java_version.version,
{
    if r is None {
        assert(manifest_text(
            i.name@,
            i.kind,
            i.version.version@,
            i.fabric_version.version@,
            i.java_text(),
        ) != i.text());
    }
    let m = r->0;
    lemma_manifest_text_injective(
        m.name@,
        m.kind,
        m.version@,
        m.fabric_version@,
        m.java_version@,
        i.name@,
        i.kind,
        i.version.version@,
        i.fabric_version.version@,
        i.java_text(),
    );
    assert forall|n: nat| decimal(n) == r->0.java_version@ implies n == i.java_version.version by {
        lemma_decimal_value(n);
        lemma_decimal_value(i.java_version.version as nat);
    }
}

/// What reading `text` as a manifest gives: the manifest whose text it is,
/// or nothing where it is the text of none.
pub open spec fn parsed_as(text: Seq<char>, r: Option<Manifest>) -> bool {
    match r {
        Some(m) => m.wf() && m.text() == text,
        None => forall|n: Seq<char>, k: InstanceType, v: Seq<char>, f: Seq<char>, j: Seq<char>|
            manifest_fields_ok(n, v, f, j) ==> #[trigger] manifest_text(n, k, v, f, j) != text,
    }
}

/// Where the text of a manifest stands, where each of its lines stands.
proof fn lemma_manifest_lines(
    t: Seq<char>,
    n: Seq<char>,
    k: InstanceType,
    v: Seq<char>,
    f: Seq<char>,
    j: Seq<char>,
)
    requires
        manifest_text(n, k, v, f, j) == t,
    ensures
        is_prefix_at(t, 0, field_line("name"@, n)),
        is_prefix_at(t, field_line("name"@, n).len() as int, field_line("type"@, k.spec_label())),
        is_prefix_at(
            t,
            (field_line("name"@, n).len() + field_line("type"@, k.spec_label()).len()) as int,
            field_line("version"@, v),
        ),
        is_prefix_at(
            t,
            (field_line("name"@, n).len() + field_line("type"@, k.spec_label()).len()
                + field_line("version"@, v).len()) as int,
            field_line("fabric_version"@, f),
        ),
        is_prefix_at(
            t,
            (field_line("name"@, n).len() + field_line("type"@, k.spec_label()).len()
                + field_line("version"@, v).len() + field_line("fabric_version"@, f).len()) as int,
            field_line("java_version"@, j),
        ),
        t.len() == field_line("name"@, n).len() + field_line("type"@, k.spec_label()).len()
            + field_line("version"@, v).len() + field_line("fabric_version"@, f).len()
            + field_line("java_version"@, j).len(),
{
    let a = field_line("name"@, n);
    let b = field_line("type"@, k.spec_label());
    let c = field_line("version"@, v);
    let d = field_line("fabric_version"@, f);
    let e = field_line("java_version"@, j);
    assert(t.subrange(0, t.len() as int) =~= t);
    lemma_prefix_concat(t, 0, a + b + c + d, e);
    lemma_prefix_concat(t, 0, a + b + c, d);
    lemma_prefix_concat(t, 0, a + b, c);
    lemma_prefix_concat(t, 0, a, b);
}

/// Reads a manifest back from its text.
#[verifier::rlimit(100)]
pub fn parse_manifest(text: &str) -> (r: Option<Manifest>)
    ensures
        parsed_as(text@, r),
{
    let ghost t = text@;
    let n = text.unicode_len();
    let (name, p1) = match read_field(text, n, 0, "name") {
        Some(x) => x,
        None => {
            proof {
                assert forall|n: Seq<char>, k: InstanceType, v: Seq<char>, f: Seq<char>, j: Seq<char>|
                    manifest_fields_ok(n, v, f, j) implies #[trigger] manifest_text(n, k, v, f, j) != t by {
                    if manifest_text(n, k, v, f, j) == t {
                        lemma_manifest_lines(t, n, k, v, f, j);
                    }
                }
            }
            return None;
        },
    };
    if !safe_name(name.as_str()) {
        proof {
            assert forall|n: Seq<char>, k: InstanceType, v: Seq<char>, f: Seq<char>, j: Seq<char>|
                manifest_fields_ok(n, v, f, j) implies #[trigger] manifest_text(n, k, v, f, j) != t by {
                if manifest_text(n, k, v, f, j) == t {
                    lemma_manifest_lines(t, n, k, v, f, j);
                }
            }
        }
        return None;
    }
    let (label, p2) = match read_field(text, n, p1, "type") {
        Some(x) => x,
        None => {
            proof {
                assert forall|n: Seq<char>, k: InstanceType, v: Seq<char>, f: Seq<char>, j: Seq<char>|
                    manifest_fields_ok(n, v, f, j) implies #[trigger] manifest_text(n, k, v, f, j) != t by {
                    if manifest_text(n, k, v, f, j) == t {
                        lemma_manifest_lines(t, n, k, v, f, j);
                        reveal_strlit("Client");
                        reveal_strlit("Server");
                    }
                }
            }
            return None;
        },
    };
    let kind = if label == String::from_str("Client") {
        InstanceType::Client
    } else if label == String::from_str("Server") {
        InstanceType::Server
    } else {
        proof {
            assert forall|n: Seq<char>, k: InstanceType, v: Seq<char>, f: Seq<char>, j: Seq<char>|
                manifest_fields_ok(n, v, f, j) implies #[trigger] manifest_text(n, k, v, f, j) != t by {
                if manifest_text(n, k, v, f, j) == t {
                    lemma_manifest_lines(t, n, k, v, f, j);
                    reveal_strlit("Client");
                    reveal_strlit("Server");
                }
            }
        }
        return None;
    };
    let (version, p3) = match read_field(text, n, p2, "version") {
        Some(x) => x,
        None => {
            proof {
                assert forall|n: Seq<char>, k: InstanceType, v: Seq<char>, f: Seq<char>, j: Seq<char>|
                    manifest_fields_ok(n, v, f, j) implies #[trigger] manifest_text(n, k, v, f, j) != t by {
                    if manifest_text(n, k, v, f, j) == t {
                        lemma_manifest_lines(t, n, k, v, f, j);
                        reveal_strlit("Client");
                        reveal_strlit("Server");
                    }
                }
            }
            return None;
        },
    };
    let (fabric_version, p4) = match read_field(text, n, p3, "fabric_version") {
        Some(x) => x,
        None => {
            proof {
                assert forall|n: Seq<char>, k: InstanceType, v: Seq<char>, f: Seq<char>, j: Seq<char>|
                    manifest_fields_ok(n, v, f, j) implies #[trigger] manifest_text(n, k, v, f, j) != t by {
                    if manifest_text(n, k, v, f, j) == t {
                        lemma_manifest_lines(t, n, k, v, f, j);
                        reveal_strlit("Client");
                        reveal_strlit("Server");
                    }
                }
            }
            return None;
        },
    };
    let (java_version, p5) = match read_field(text, n, p4, "java_version") {
        Some(x) => x,
        None => {
            proof {
                assert forall|n: Seq<char>, k: InstanceType, v: Seq<char>, f: Seq<char>, j: Seq<char>|
                    manifest_fields_ok(n, v, f, j) implies #[trigger] manifest_text(n, k, v, f, j) != t by {
                    if manifest_text(n, k, v, f, j) == t {
                        lemma_manifest_lines(t, n, k, v, f, j);
                        reveal_strlit("Client");
                        reveal_strlit("Server");
                    }
                }
            }
            return None;
        },
    };
    if p5 != n {
        proof {
            assert forall|n: Seq<char>, k: InstanceType, v: Seq<char>, f: Seq<char>, j: Seq<char>|
                manifest_fields_ok(n, v, f, j) implies #[trigger] manifest_text(n, k, v, f, j) != t by {
                if manifest_text(n, k, v, f, j) == t {
                    lemma_manifest_lines(t, n, k, v, f, j);
                    reveal_strlit("Client");
                    reveal_strlit("Server");
                }
            }
        }
        return None;
    }
    let m = Manifest { name, kind, version, fabric_version, java_version };
    proof {
        let a = field_line("name"@, m.name@);
        let b = field_line("type"@, kind.spec_label());
        let c = field_line("version"@, m.version@);
        let d = field_line("fabric_version"@, m.fabric_version@);
        let e = field_line("java_version"@, m.java_version@);
        lemma_prefix_concat(t, 0, a, b);
        lemma_prefix_concat(t, 0, a + b, c);
        lemma_prefix_concat(t, 0, a + b + c, d);
        lemma_prefix_concat(t, 0, a + b + c + d, e);
        assert(t.subrange(0, t.len() as int) =~= t);
    }
    Some(m)
}

} // verus!
