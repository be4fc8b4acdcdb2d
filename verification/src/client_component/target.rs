//! Destinations, startup parameters, and protocol limits.

use bytes::Bytes;
use vstd::prelude::*;
use vstd::utf8::*;

use crate::crypto::utf8_text;
use crate::octet_map::{same, text_list, text_map, OctetMap};
use crate::octets::{as_slice, copy_from_slice, octets};
use crate::startup::{ProtocolVersion, StartupMessage, StartupView};

verus! {

pub const USER: &'static str = "user";

pub const DATABASE: &'static str = "database";

/// Another handle on the same map.
fn copy_map(map: &OctetMap<Bytes>) -> (copy: OctetMap<Bytes>)
    ensures
        text_map(copy@) == text_map(map@),
        text_list(copy.listed()) == text_list(map.listed()),
{
    let copy = map.clone();
    assert(text_map(copy@) =~= text_map(map@));
    assert(text_list(copy.listed()) =~= text_list(map.listed()));
    copy
}

impl StartupMessage {
    /// Another handle on the same message.
    pub fn duplicate(&self) -> (copy: StartupMessage)
        ensures
            copy@ == self@,
    {
        StartupMessage { version: self.version, parameters: copy_map(&self.parameters) }
    }
}

/// Application-defined destination supplied to the connector. It has no debug
/// representation, so that routing metadata cannot end up in a log.
pub struct ConnectTarget {
    name: String,
    metadata: OctetMap<Bytes>,
}

/// What a destination says. Metadata is UTF-8 text.
#[verifier::ext_equal]
pub struct ConnectTargetView {
    pub name: Seq<char>,
    pub metadata: Map<Seq<u8>, Seq<u8>>,
}

impl View for ConnectTarget {
    type V = ConnectTargetView;

    closed spec fn view(&self) -> ConnectTargetView {
        ConnectTargetView { name: self.name@, metadata: text_map(self.metadata@) }
    }
}

impl ConnectTarget {
    /// Creates a named destination.
    #[must_use]
    pub fn new(name: String) -> (target: Self)
        ensures
            target@ == (ConnectTargetView { name: name@, metadata: Map::empty() }),
    {
        let target = ConnectTarget { name, metadata: OctetMap::new() };
        assert(target@.metadata =~= Map::<Seq<u8>, Seq<u8>>::empty());
        target
    }

    /// Returns its application-defined name or address.
    #[must_use]
    pub fn name(&self) -> (name: &str)
        ensures
            name@ == self@.name,
    {
        self.name.as_str()
    }

    /// Adds routing metadata retained in the connection context.
    #[must_use]
    pub fn with_metadata(self, key: String, value: String) -> (target: Self)
        ensures
            target@ == (ConnectTargetView {
                metadata: self@.metadata.insert(encode_utf8(key@), encode_utf8(value@)),
                ..self@
            }),
    {
        let ConnectTarget { name, mut metadata } = self;
        let _ = metadata.insert(
            copy_from_slice(key.as_str().as_bytes()),
            copy_from_slice(value.as_str().as_bytes()),
        );
        let target = ConnectTarget { name, metadata };
        assert(target@.metadata =~= self@.metadata.insert(
            encode_utf8(key@),
            encode_utf8(value@),
        ));
        target
    }

    /// Returns application-owned routing metadata.
    #[must_use]
    pub fn metadata(&self) -> (metadata: &OctetMap<Bytes>)
        ensures
            text_map(metadata@) == self@.metadata,
    {
        &self.metadata
    }

    /// Another handle on the same destination.
    pub fn duplicate(&self) -> (copy: Self)
        ensures
            copy@ == self@,
    {
        ConnectTarget { name: self.name.clone(), metadata: copy_map(&self.metadata) }
    }
}

impl Clone for ConnectTarget {
    fn clone(&self) -> (copy: Self)
        ensures
            copy@ == self@,
    {
        self.duplicate()
    }
}

/// Structured startup fields and extension parameters. They have no debug
/// representation, so that credentials cannot end up in a log.
pub struct StartupParameters {
    user: Option<String>,
    database: Option<String>,
    extensions: OctetMap<Bytes>,
}

/// What startup parameters say. Extensions are UTF-8 text.
#[verifier::ext_equal]
pub struct ParametersView {
    pub user: Option<Seq<char>>,
    pub database: Option<Seq<char>>,
    pub extensions: Map<Seq<u8>, Seq<u8>>,
}

pub open spec fn text_view(text: Option<String>) -> Option<Seq<char>> {
    match text {
        Some(text) => Some(text@),
        None => None,
    }
}

impl View for StartupParameters {
    type V = ParametersView;

    closed spec fn view(&self) -> ParametersView {
        ParametersView {
            user: text_view(self.user),
            database: text_view(self.database),
            extensions: text_map(self.extensions@),
        }
    }
}

/// Why startup parameters received from a peer cannot be represented.
#[derive(Clone, Copy, Debug, PartialEq, Eq, Structural)]
pub enum ParameterTextError {
    /// A parameter name is not UTF-8.
    Name,
    /// A parameter value is not UTF-8.
    Value,
}

/// Invalid structured startup configuration. It has no debug representation, so
/// that a parameter name cannot end up in a log.
pub enum StartupParameterError {
    /// A standard structured field was supplied through the extension map.
    ReservedExtension(String),
    /// Neither reusable defaults nor per-call overrides supplied a user.
    MissingUser,
}

/// Names of the structured fields.
pub open spec fn reserved(name: Seq<u8>) -> bool {
    name == encode_utf8(USER@) || name == encode_utf8(DATABASE@)
}

/// Whether no extension shadows a structured field and every extension is text.
pub open spec fn proper_extensions(extensions: Map<Seq<u8>, Seq<u8>>) -> bool {
    forall|name: Seq<u8>| #[trigger]
        extensions.dom().contains(name) ==> !reserved(name) && valid_utf8(name) && valid_utf8(
            extensions[name],
        )
}

pub open spec fn entry_fault(entry: (Seq<u8>, Seq<u8>)) -> Option<ParameterTextError> {
    if !valid_utf8(entry.0) {
        Some(ParameterTextError::Name)
    } else if !valid_utf8(entry.1) {
        Some(ParameterTextError::Value)
    } else {
        None
    }
}

/// Fault of the first entry that has one.
pub open spec fn first_fault(entries: Seq<(Seq<u8>, Seq<u8>)>) -> Option<ParameterTextError>
    decreases entries.len(),
{
    if entries.len() == 0 {
        None
    } else {
        match first_fault(entries.drop_last()) {
            Some(fault) => Some(fault),
            None => entry_fault(entries.last()),
        }
    }
}

/// The text that a name stands for.
pub open spec fn field(parameters: Map<Seq<u8>, Seq<u8>>, name: Seq<u8>) -> Option<Seq<char>> {
    if parameters.dom().contains(name) {
        Some(decode_utf8(parameters[name]))
    } else {
        None
    }
}

/// Startup parameters as structured fields and extensions.
pub open spec fn structured(parameters: Map<Seq<u8>, Seq<u8>>) -> ParametersView {
    ParametersView {
        user: field(parameters, encode_utf8(USER@)),
        database: field(parameters, encode_utf8(DATABASE@)),
        extensions: Map::new(
            |name: Seq<u8>| parameters.dom().contains(name) && !reserved(name),
            |name: Seq<u8>| parameters[name],
        ),
    }
}

/// Parameters of a startup message: extensions and structured fields.
pub open spec fn flattened(parameters: ParametersView, user: Seq<char>) -> Map<Seq<u8>, Seq<u8>> {
    let with_user = parameters.extensions.insert(encode_utf8(USER@), encode_utf8(user));
    match parameters.database {
        Some(database) => with_user.insert(encode_utf8(DATABASE@), encode_utf8(database)),
        None => with_user,
    }
}

/// Structured fields of `overrides` where it has them, of `base` elsewhere, and
/// the extensions of both.
pub open spec fn merged(base: ParametersView, overrides: ParametersView) -> ParametersView {
    ParametersView {
        user: if overrides.user is Some {
            overrides.user
        } else {
            base.user
        },
        database: if overrides.database is Some {
            overrides.database
        } else {
            base.database
        },
        extensions: base.extensions.union_prefer_right(overrides.extensions),
    }
}

proof fn lemma_reserved_names()
    ensures
        encode_utf8(USER@) != encode_utf8(DATABASE@),
{
    reveal_strlit("user");
    reveal_strlit("database");
    encode_utf8_decode_utf8(USER@);
    encode_utf8_decode_utf8(DATABASE@);
    assert(USER@.len() != DATABASE@.len());
}

proof fn lemma_first_fault_before(entries: Seq<(Seq<u8>, Seq<u8>)>, at: int)
    requires
        0 <= at < entries.len(),
        first_fault(entries.take(at)) is None,
        entry_fault(entries[at]) is Some,
    ensures
        first_fault(entries) == entry_fault(entries[at]),
    decreases entries.len() - at,
{
    assert(entries.take(at + 1).drop_last() =~= entries.take(at));
    lemma_first_fault_grows(entries, at + 1);
}

proof fn lemma_first_fault_grows(entries: Seq<(Seq<u8>, Seq<u8>)>, count: int)
    requires
        0 <= count <= entries.len(),
        first_fault(entries.take(count)) is Some,
    ensures
        first_fault(entries) == first_fault(entries.take(count)),
    decreases entries.len() - count,
{
    if count == entries.len() {
        assert(entries.take(count) =~= entries);
    } else {
        assert(entries.take(count + 1).drop_last() =~= entries.take(count));
        lemma_first_fault_grows(entries, count + 1);
    }
}

impl StartupParameters {
    #[verifier::type_invariant]
    spec fn proper(&self) -> bool {
        proper_extensions(text_map(self.extensions@))
    }

    /// Parameters without any field.
    pub fn empty() -> (parameters: Self)
        ensures
            parameters@ == (ParametersView {
                user: None,
                database: None,
                extensions: Map::empty(),
            }),
    {
        let extensions: OctetMap<Bytes> = OctetMap::new();
        assert(text_map(extensions@) =~= Map::<Seq<u8>, Seq<u8>>::empty());
        StartupParameters { user: None, database: None, extensions }
    }

    /// Creates parameters containing a PostgreSQL user.
    #[must_use]
    pub fn new(user: String) -> (parameters: Self)
        ensures
            parameters@ == (ParametersView {
                user: Some(user@),
                database: None,
                extensions: Map::empty(),
            }),
    {
        let extensions: OctetMap<Bytes> = OctetMap::new();
        assert(text_map(extensions@) =~= Map::<Seq<u8>, Seq<u8>>::empty());
        StartupParameters { user: Some(user), database: None, extensions }
    }

    /// Returns the configured user, when present.
    #[must_use]
    pub fn user(&self) -> (user: Option<&str>)
        ensures
            match user {
                Some(user) => self@.user == Some(user@),
                None => self@.user is None,
            },
    {
        match &self.user {
            Some(user) => Some(user.as_str()),
            None => None,
        }
    }

    /// Returns the configured database, when present.
    #[must_use]
    pub fn database_name(&self) -> (database: Option<&str>)
        ensures
            match database {
                Some(database) => self@.database == Some(database@),
                None => self@.database is None,
            },
    {
        match &self.database {
            Some(database) => Some(database.as_str()),
            None => None,
        }
    }

    /// Returns the extension parameters.
    #[must_use]
    pub fn extensions(&self) -> (extensions: &OctetMap<Bytes>)
        ensures
            text_map(extensions@) == self@.extensions,
    {
        &self.extensions
    }

    /// Reads the parameters of a startup message.
    ///
    /// # Errors
    ///
    /// Reports the first name or value, in order of names, that is not UTF-8.
    #[verifier::loop_isolation(false)]
    pub fn from_wire(message: &StartupMessage) -> (result: Result<Self, ParameterTextError>)
        ensures
            match result {
                Ok(parameters) => first_fault(text_list(message.parameters.listed())) is None
                    && parameters@ == structured(message@.parameters),
                Err(fault) => first_fault(text_list(message.parameters.listed())) == Some(fault),
            },
    {
        let ghost listed = message.parameters.listed();
        let ghost entries = text_list(listed);
        let ghost known = message.parameters@;
        let count: usize = message.parameters.len();
        let mut user: Option<String> = None;
        let mut database: Option<String> = None;
        let mut extensions: OctetMap<Bytes> = OctetMap::new();
        let mut at: usize = 0;
        proof {
            lemma_reserved_names();
            assert(entries.take(0) =~= Seq::empty());
        }
        while at < count
            invariant
                at <= count == listed.len(),
                listed == message.parameters.listed(),
                known == message.parameters@,
                entries == text_list(listed),
                first_fault(entries.take(at as int)) is None,
                forall|i: int|
                    0 <= i < at ==> known.dom().contains((#[trigger] listed[i]).0)
                        && known[listed[i].0] == listed[i].1,
                text_view(user) matches Some(text) ==> exists|i: int|
                    0 <= i < at && (#[trigger] listed[i]).0 == encode_utf8(USER@) && text
                        == decode_utf8(octets(listed[i].1)),
                user is None ==> forall|i: int|
                    0 <= i < at ==> (#[trigger] listed[i]).0 != encode_utf8(USER@),
                text_view(database) matches Some(text) ==> exists|i: int|
                    0 <= i < at && (#[trigger] listed[i]).0 == encode_utf8(DATABASE@) && text
                        == decode_utf8(octets(listed[i].1)),
                database is None ==> forall|i: int|
                    0 <= i < at ==> (#[trigger] listed[i]).0 != encode_utf8(DATABASE@),
                forall|name: Seq<u8>| #[trigger]
                    extensions@.dom().contains(name) ==> !reserved(name) && valid_utf8(name)
                        && known.dom().contains(name) && octets(extensions@[name]) == octets(
                        known[name],
                    ) && valid_utf8(octets(known[name])),
                forall|i: int|
                    0 <= i < at && !reserved((#[trigger] listed[i]).0)
                        ==> extensions@.dom().contains(listed[i].0),
            decreases count - at,
        {
            let name = message.parameters.key_at(at);
            let value = message.parameters.value_at(at);
            proof {
                assert(entries[at as int] == (octets(*name), octets(*value)));
            }
            if utf8_text(as_slice(name)).is_none() {
                proof {
                    lemma_first_fault_before(entries, at as int);
                }
                return Err(ParameterTextError::Name);
            }
            let text: &str = match utf8_text(as_slice(value)) {
                Some(text) => text,
                None => {
                    proof {
                        lemma_first_fault_before(entries, at as int);
                    }
                    return Err(ParameterTextError::Value);
                },
            };
            proof {
                encode_utf8_decode_utf8(text@);
                assert(entries.take(at + 1).drop_last() =~= entries.take(at as int));
            }
            if same(as_slice(name), USER.as_bytes()) {
                user = Some(text.to_owned());
                assert(listed[at as int].0 == encode_utf8(USER@));
            } else if same(as_slice(name), DATABASE.as_bytes()) {
                database = Some(text.to_owned());
                assert(listed[at as int].0 == encode_utf8(DATABASE@));
            } else {
                let _ = extensions.insert(name.clone(), value.clone());
            }
            at = at + 1;
        }
        proof {
            assert(entries.take(count as int) =~= entries);
            let expected = structured(message@.parameters);
            assert forall|name: Seq<u8>| #[trigger] known.dom().contains(name) implies exists|i:
                int| 0 <= i < listed.len() && (#[trigger] listed[i]).0 == name by {}
            assert(text_map(extensions@) =~= expected.extensions);
            if known.dom().contains(encode_utf8(USER@)) {
                let i = choose|i: int|
                    0 <= i < listed.len() && (#[trigger] listed[i]).0 == encode_utf8(USER@);
                assert(listed[i].0 == encode_utf8(USER@));
            }
            if known.dom().contains(encode_utf8(DATABASE@)) {
                let i = choose|i: int|
                    0 <= i < listed.len() && (#[trigger] listed[i]).0 == encode_utf8(DATABASE@);
                assert(listed[i].0 == encode_utf8(DATABASE@));
            }
            assert(text_view(user) == expected.user);
            assert(text_view(database) == expected.database);
            assert(proper_extensions(text_map(extensions@)));
        }
        Ok(StartupParameters { user, database, extensions })
    }

    /// Overrides the database field.
    #[must_use]
    pub fn database(self, database: String) -> (parameters: Self)
        ensures
            parameters@ == (ParametersView { database: Some(database@), ..self@ }),
    {
        proof {
            use_type_invariant(&self);
        }
        StartupParameters { user: self.user, database: Some(database), extensions: self.extensions }
    }

    /// Adds a non-standard startup extension parameter.
    ///
    /// # Errors
    ///
    /// Returns an error when `name` is a structured standard field.
    pub fn extension(self, name: String, value: String) -> (result: Result<
        Self,
        StartupParameterError,
    >)
        ensures
            match result {
                Ok(parameters) => !reserved(encode_utf8(name@)) && parameters@ == (ParametersView {
                    extensions: self@.extensions.insert(encode_utf8(name@), encode_utf8(value@)),
                    ..self@
                }),
                Err(error) => reserved(encode_utf8(name@)) && error
                    == StartupParameterError::ReservedExtension(name),
            },
    {
        proof {
            use_type_invariant(&self);
        }
        if same(name.as_str().as_bytes(), USER.as_bytes()) || same(
            name.as_str().as_bytes(),
            DATABASE.as_bytes(),
        ) {
            return Err(StartupParameterError::ReservedExtension(name));
        }
        let StartupParameters { user, database, mut extensions } = self;
        let ghost before = extensions@;
        let _ = extensions.insert(
            copy_from_slice(name.as_str().as_bytes()),
            copy_from_slice(value.as_str().as_bytes()),
        );
        proof {
            encode_utf8_valid_utf8(name@);
            encode_utf8_valid_utf8(value@);
            assert(text_map(extensions@) =~= text_map(before).insert(
                encode_utf8(name@),
                encode_utf8(value@),
            ));
        }
        Ok(StartupParameters { user, database, extensions })
    }

    /// Parameters of `overrides` over those of this value.
    #[verifier::loop_isolation(false)]
    pub fn merged_with(self, overrides: Self) -> (parameters: Self)
        ensures
            parameters@ == merged(self@, overrides@),
    {
        proof {
            use_type_invariant(&self);
            use_type_invariant(&overrides);
        }
        let StartupParameters { user, database, mut extensions } = self;
        let ghost before = extensions@;
        let ghost given = overrides.extensions@;
        let ghost listed = overrides.extensions.listed();
        let count: usize = overrides.extensions.len();
        let mut at: usize = 0;
        while at < count
            invariant
                at <= count == listed.len(),
                listed == overrides.extensions.listed(),
                given == overrides.extensions@,
                forall|i: int|
                    0 <= i < at ==> given.dom().contains((#[trigger] listed[i]).0)
                        && extensions@.dom().contains(listed[i].0),
                forall|name: Seq<u8>| #[trigger]
                    before.dom().contains(name) ==> extensions@.dom().contains(name),
                forall|name: Seq<u8>| #[trigger]
                    extensions@.dom().contains(name) ==> (before.dom().contains(name) && octets(
                        extensions@[name],
                    ) == octets(before[name]) && forall|i: int|
                        0 <= i < at ==> (#[trigger] listed[i]).0 != name) || (given.dom().contains(
                        name,
                    ) && octets(extensions@[name]) == octets(given[name])),
            decreases count - at,
        {
            let name = overrides.extensions.key_at(at);
            let value = overrides.extensions.value_at(at);
            let _ = extensions.insert(name.clone(), value.clone());
            assert(listed[at as int].0 == octets(*name));
            at = at + 1;
        }
        proof {
            assert forall|name: Seq<u8>| #[trigger] given.dom().contains(name) implies exists|i:
                int| 0 <= i < listed.len() && (#[trigger] listed[i]).0 == name by {}
            assert(text_map(extensions@) =~= text_map(before).union_prefer_right(
                text_map(given),
            ));
        }
        let user = match overrides.user {
            Some(user) => Some(user),
            None => user,
        };
        let database = match overrides.database {
            Some(database) => Some(database),
            None => database,
        };
        StartupParameters { user, database, extensions }
    }

    /// The startup message of these parameters.
    ///
    /// # Errors
    ///
    /// A user is required.
    pub fn into_message(self) -> (result: Result<StartupMessage, StartupParameterError>)
        ensures
            match result {
                Ok(message) => self@.user matches Some(user) && message@ == (StartupView {
                    version: ProtocolVersion { major: 3, minor: 2 },
                    parameters: flattened(self@, user),
                }),
                Err(error) => self@.user is None && error == StartupParameterError::MissingUser,
            },
    {
        let StartupParameters { user, database, mut extensions } = self;
        let user = match user {
            Some(user) => user,
            None => return Err(StartupParameterError::MissingUser),
        };
        let ghost before = extensions@;
        let _ = extensions.insert(
            copy_from_slice(USER.as_bytes()),
            copy_from_slice(user.as_str().as_bytes()),
        );
        assert(text_map(extensions@) =~= text_map(before).insert(
            encode_utf8(USER@),
            encode_utf8(user@),
        ));
        if let Some(database) = database {
            let ghost before = extensions@;
            let _ = extensions.insert(
                copy_from_slice(DATABASE.as_bytes()),
                copy_from_slice(database.as_str().as_bytes()),
            );
            assert(text_map(extensions@) =~= text_map(before).insert(
                encode_utf8(DATABASE@),
                encode_utf8(database@),
            ));
        }
        Ok(StartupMessage { version: ProtocolVersion::v3_2(), parameters: extensions })
    }
}

impl Clone for StartupParameters {
    fn clone(&self) -> (copy: Self)
        ensures
            copy@ == self@,
    {
        proof {
            use_type_invariant(self);
        }
        StartupParameters {
            user: self.user.clone(),
            database: self.database.clone(),
            extensions: copy_map(&self.extensions),
        }
    }
}

impl Default for StartupParameters {
    fn default() -> (parameters: Self)
        ensures
            parameters@ == (ParametersView {
                user: None,
                database: None,
                extensions: Map::empty(),
            }),
    {
        StartupParameters::empty()
    }
}

/// Parameters that were flattened into a startup message are read back from it.
pub proof fn law_parameters_round_trip(parameters: ParametersView, user: Seq<char>)
    requires
        proper_extensions(parameters.extensions),
        parameters.user == Some(user),
    ensures
        structured(flattened(parameters, user)) == parameters,
{
    lemma_reserved_names();
    encode_utf8_decode_utf8(user);
    if let Some(database) = parameters.database {
        encode_utf8_decode_utf8(database);
    }
    assert(structured(flattened(parameters, user)).extensions =~= parameters.extensions);
}

/// What overrides give wins, field by field and extension by extension; what they
/// leave open stays as it was. Structured fields stay out of the extensions, and a
/// second override with the same parameters changes nothing.
pub proof fn law_overrides_win(base: ParametersView, overrides: ParametersView)
    requires
        proper_extensions(base.extensions),
        proper_extensions(overrides.extensions),
    ensures
        proper_extensions(merged(base, overrides).extensions),
        merged(merged(base, overrides), overrides) == merged(base, overrides),
        overrides.user matches Some(user) ==> merged(base, overrides).user == Some(user),
        overrides.user is None ==> merged(base, overrides).user == base.user,
        overrides.database matches Some(database) ==> merged(base, overrides).database == Some(
            database,
        ),
        overrides.database is None ==> merged(base, overrides).database == base.database,
        forall|name: Seq<u8>| #[trigger]
            overrides.extensions.dom().contains(name) ==> merged(
                base,
                overrides,
            ).extensions.dom().contains(name) && merged(base, overrides).extensions[name]
                == overrides.extensions[name],
        forall|name: Seq<u8>|
            !overrides.extensions.dom().contains(name) ==> (#[trigger] merged(
                base,
                overrides,
            ).extensions.dom().contains(name) <==> base.extensions.dom().contains(name)),
        forall|name: Seq<u8>|
            !overrides.extensions.dom().contains(name) && #[trigger] base.extensions.dom().contains(
                name,
            ) ==> merged(base, overrides).extensions[name] == base.extensions[name],
{
    assert(merged(merged(base, overrides), overrides).extensions =~= merged(
        base,
        overrides,
    ).extensions);
}

/// A startup message names the user as `user`, the database, if there is one, as
/// `database`, and every extension by its own name; it says nothing else.
pub proof fn law_startup_names(parameters: ParametersView, user: Seq<char>)
    requires
        proper_extensions(parameters.extensions),
    ensures
        flattened(parameters, user).dom().contains(encode_utf8("user"@)),
        flattened(parameters, user)[encode_utf8("user"@)] == encode_utf8(user),
        flattened(parameters, user).dom().contains(encode_utf8("database"@))
            <==> parameters.database is Some,
        parameters.database matches Some(database) ==> flattened(parameters, user)[encode_utf8(
            "database"@,
        )] == encode_utf8(database),
        forall|name: Seq<u8>|
            name != encode_utf8("user"@) && name != encode_utf8("database"@) ==> (
            #[trigger] flattened(parameters, user).dom().contains(name)
                <==> parameters.extensions.dom().contains(name)),
        forall|name: Seq<u8>| #[trigger]
            parameters.extensions.dom().contains(name) ==> flattened(parameters, user)[name]
                == parameters.extensions[name],
{
    lemma_reserved_names();
}

/// What a peer's startup parameters `user` and `database` say becomes the structured
/// fields, and every other parameter an extension.
pub proof fn law_startup_fields(parameters: Map<Seq<u8>, Seq<u8>>)
    ensures
        structured(parameters).user == if parameters.dom().contains(encode_utf8("user"@)) {
            Some(decode_utf8(parameters[encode_utf8("user"@)]))
        } else {
            None
        },
        structured(parameters).database == if parameters.dom().contains(
            encode_utf8("database"@),
        ) {
            Some(decode_utf8(parameters[encode_utf8("database"@)]))
        } else {
            None
        },
        forall|name: Seq<u8>| #[trigger]
            structured(parameters).extensions.dom().contains(name) <==> parameters.dom().contains(
                name,
            ) && name != encode_utf8("user"@) && name != encode_utf8("database"@),
        forall|name: Seq<u8>| #[trigger]
            structured(parameters).extensions.dom().contains(name) ==> structured(
                parameters,
            ).extensions[name] == parameters[name],
{
}

/// Smallest tagged frame: a tag and its length field.
pub const MIN_FRAME_LENGTH: usize = 5;

/// Largest tagged frame: a tag and a body with a signed 32-bit length.
pub const MAX_FRAME_LENGTH: usize = 0x8000_0000;

pub const DEFAULT_FRAME_LENGTH: usize = 1_048_576;

/// Conservative protocol allocation limits.
#[derive(Clone, Copy, Debug, PartialEq, Eq, Structural)]
pub struct ProtocolLimits {
    max_frame_len: usize,
}

/// Invalid protocol limit configuration.
#[derive(Clone, Copy, Debug, PartialEq, Eq, Structural)]
pub struct ProtocolLimitError;

impl ProtocolLimitError {
    /// Description of the failure.
    pub fn message(&self) -> (message: &'static str)
        ensures
            message@ == "frame limit is outside PostgreSQL's tagged-frame range"@,
    {
        "frame limit is outside PostgreSQL's tagged-frame range"
    }
}

impl Default for ProtocolLimits {
    fn default() -> (limits: Self)
        ensures
            limits.frame_limit() == DEFAULT_FRAME_LENGTH,
    {
        ProtocolLimits { max_frame_len: DEFAULT_FRAME_LENGTH }
    }
}

impl ProtocolLimits {
    /// The maximum complete tagged frame size.
    pub closed spec fn frame_limit(self) -> usize {
        self.max_frame_len
    }

    #[verifier::type_invariant]
    spec fn encodable(&self) -> bool {
        MIN_FRAME_LENGTH <= self.max_frame_len <= MAX_FRAME_LENGTH
    }

    /// Sets the maximum complete tagged frame size.
    ///
    /// # Errors
    ///
    /// Returns an error outside PostgreSQL's tagged-frame range.
    pub fn max_frame_len(self, limit: usize) -> (result: Result<Self, ProtocolLimitError>)
        ensures
            match result {
                Ok(limits) => MIN_FRAME_LENGTH <= limit <= MAX_FRAME_LENGTH && limits.frame_limit()
                    == limit,
                Err(_) => !(MIN_FRAME_LENGTH <= limit <= MAX_FRAME_LENGTH),
            },
    {
        if limit < MIN_FRAME_LENGTH || limit > MAX_FRAME_LENGTH {
            return Err(ProtocolLimitError);
        }
        Ok(ProtocolLimits { max_frame_len: limit })
    }

    /// Explicitly selects the largest tagged frame PostgreSQL can encode.
    #[must_use]
    pub fn without_frame_limit(self) -> (limits: Self)
        ensures
            limits.frame_limit() == MAX_FRAME_LENGTH,
    {
        ProtocolLimits { max_frame_len: MAX_FRAME_LENGTH }
    }

    /// The maximum complete tagged frame size.
    pub fn frame_length(&self) -> (limit: usize)
        ensures
            limit == self.frame_limit(),
            MIN_FRAME_LENGTH <= limit <= MAX_FRAME_LENGTH,
    {
        proof {
            use_type_invariant(self);
        }
        self.max_frame_len
    }
}

/// What makes a peer's parameters unreadable: the first entry whose name or value is not
/// UTF-8, and of its two texts the name before the value.
pub proof fn law_first_text_fault(entries: Seq<(Seq<u8>, Seq<u8>)>)
    ensures
        first_fault(entries) is None <==> forall|i: int|
            0 <= i < entries.len() ==> valid_utf8((#[trigger] entries[i]).0) && valid_utf8(
                entries[i].1,
            ),
        first_fault(entries) matches Some(fault) ==> exists|at: int|
            0 <= at < entries.len() && faulty(#[trigger] entries[at], fault) && forall|i: int|
                0 <= i < at ==> valid_utf8((#[trigger] entries[i]).0) && valid_utf8(entries[i].1),
    decreases entries.len(),
{
    if entries.len() > 0 {
        let front = entries.drop_last();
        let last = entries.len() - 1;
        law_first_text_fault(front);
        assert(entries.last() == entries[last]);
        if let Some(fault) = first_fault(entries) {
            if first_fault(front) is Some {
                let at = choose|at: int|
                    0 <= at < front.len() && faulty(#[trigger] front[at], fault) && forall|i: int|
                        0 <= i < at ==> valid_utf8((#[trigger] front[i]).0) && valid_utf8(
                            front[i].1,
                        );
                assert(faulty(entries[at], fault));
                assert forall|i: int| 0 <= i < at implies valid_utf8((#[trigger] entries[i]).0)
                    && valid_utf8(entries[i].1) by {
                    assert(front[i] == entries[i]);
                }
            } else {
                assert(faulty(entries[last], fault));
                assert forall|i: int| 0 <= i < last implies valid_utf8((#[trigger] entries[i]).0)
                    && valid_utf8(entries[i].1) by {
                    assert(front[i] == entries[i]);
                }
            }
        }
        if first_fault(entries) is None {
            assert forall|i: int| 0 <= i < entries.len() implies valid_utf8(
                (#[trigger] entries[i]).0,
            ) && valid_utf8(entries[i].1) by {
                if i < last {
                    assert(front[i] == entries[i]);
                }
            }
        }
        if forall|i: int|
            0 <= i < entries.len() ==> valid_utf8((#[trigger] entries[i]).0) && valid_utf8(
                entries[i].1,
            ) {
            assert forall|i: int| 0 <= i < front.len() implies valid_utf8((#[trigger] front[i]).0)
                && valid_utf8(front[i].1) by {
                assert(front[i] == entries[i]);
            }
        }
    }
}

/// Whether an entry is unreadable in this way.
pub open spec fn faulty(entry: (Seq<u8>, Seq<u8>), fault: ParameterTextError) -> bool {
    match fault {
        ParameterTextError::Name => !valid_utf8(entry.0),
        ParameterTextError::Value => valid_utf8(entry.0) && !valid_utf8(entry.1),
    }
}

/// The names that are structured fields, and so no extensions.
pub proof fn law_reserved_names(name: Seq<u8>)
    ensures
        reserved(name) <==> name == encode_utf8("user"@) || name == encode_utf8("database"@),
{
}

/// The limits that frames have: at least a tag and a length, at most what a signed
/// length allows besides the tag, and a mebibyte unless chosen otherwise.
pub proof fn law_frame_limits()
    ensures
        MIN_FRAME_LENGTH == 1 + 4,
        MAX_FRAME_LENGTH == 0x7fff_ffff + 1,
        DEFAULT_FRAME_LENGTH == 1024 * 1024,
{
}

/// Of two sets of parameters that are merged, the second wins, field by field.
pub proof fn law_merging_prefers_overrides(
    base: StartupParameters,
    overrides: StartupParameters,
    result: StartupParameters,
)
    requires
        call_ensures(StartupParameters::merged_with, (base, overrides), result),
    ensures
        result@.user == (if overrides@.user is Some {
            overrides@.user
        } else {
            base@.user
        }),
        result@.database == (if overrides@.database is Some {
            overrides@.database
        } else {
            base@.database
        }),
        forall|name: Seq<u8>| #[trigger]
            result@.extensions.dom().contains(name) <==> overrides@.extensions.dom().contains(name)
                || base@.extensions.dom().contains(name),
        forall|name: Seq<u8>| #[trigger]
            overrides@.extensions.dom().contains(name) ==> result@.extensions[name]
                == overrides@.extensions[name],
        forall|name: Seq<u8>| #[trigger]
            base@.extensions.dom().contains(name) && !overrides@.extensions.dom().contains(name)
                ==> result@.extensions[name] == base@.extensions[name],
{
}

} // verus!
