//! What a sleeping server says to its clients.

use vstd::prelude::*;
use vstd::string::StringExecFns;
use vstd::utf8::encode_utf8;

use crate::bytes::{utf16_units, utf8_bytes_per_unit};
use crate::json::{
    boolean, json_of, lists_read_back, numbers_read_back, object, objects_read_back, quoted,
    quoted_texts_read_back, says, text_array, told_members, truths_read_back, Json, Member,
    ObjectWriter,
};
use crate::text::{append_decimal, decimal};

use super::packet::{
    encode_string_packet, frame_prefix_from, framed, packet_reads_back, string_at, string_payload,
    texts_are_read_anywhere, FramePrefix, PacketError, MAX_STRING_UNITS,
};
use super::varint::{encoded, encoded_length};
use super::version::{MinecraftVersion, Release};

verus! {

/// How a sleeping server presents itself.
pub struct MinecraftResponderSettings {
    pub minecraft_version: MinecraftVersion,
    pub sleeping_motd_text: String,
    pub sleeping_motd_color: String,
    pub sleeping_motd_bold: bool,
    pub startup_message_text: String,
    pub startup_message_color: String,
    pub startup_message_bold: bool,
    pub server_icon: Option<String>,
}

/// The text for clients that cannot be served because nobody knows who owns the backend.
pub open spec fn conflict_message() -> Seq<char> {
    "MCServerNap cannot safely start the server because the backend state is uncertain. Try again later or contact the server administrator."@
}

/// A member whose value is a text.
pub open spec fn text_member(key: Seq<char>, value: Seq<char>) -> Member {
    Member { key, json: quoted(value) }
}

/// A member whose value is a number.
pub open spec fn number_member(key: Seq<char>, value: nat) -> Member {
    Member { key, json: decimal(value) }
}

/// A styled text as clients are shown it when they are turned away.
pub open spec fn notice(text: Seq<char>, color: Seq<char>, bold: bool) -> Seq<char> {
    object(
        seq![
            Member { key: "bold"@, json: boolean(bold) },
            text_member("color"@, color),
            text_member("text"@, text),
        ],
    )
}

/// A styled text as it stands in the status.
pub open spec fn component(text: Seq<char>, color: Seq<char>, bold: bool) -> Seq<char> {
    object(
        seq![
            text_member("text"@, text),
            text_member("color"@, color),
            Member { key: "bold"@, json: boolean(bold) },
        ],
    )
}

/// The members of the status that every server has.
pub open spec fn status_members(
    release: Release,
    text: Seq<char>,
    color: Seq<char>,
    bold: bool,
) -> Seq<Member> {
    seq![
        Member {
            key: "version"@,
            json: object(
                seq![
                    text_member("name"@, release.name),
                    number_member("protocol"@, release.protocol as nat),
                ],
            ),
        },
        Member {
            key: "players"@,
            json: object(
                seq![
                    number_member("max"@, 0),
                    number_member("online"@, 0),
                    Member { key: "sample"@, json: crate::json::array(Seq::empty()) },
                ],
            ),
        },
        Member { key: "description"@, json: component(text, color, bold) },
    ]
}

/// The status of a sleeping server: its release, no players, its message of the day and its
/// icon if it has one.
pub open spec fn status_document(settings: MinecraftResponderSettings) -> Seq<char> {
    let members = status_members(
        settings.minecraft_version@,
        settings.sleeping_motd_text@,
        settings.sleeping_motd_color@,
        settings.sleeping_motd_bold,
    );
    match settings.server_icon {
        Some(icon) => object(members.push(text_member("favicon"@, icon@))),
        None => object(members),
    }
}

/// What a client is told whose login wakes the server.
pub open spec fn startup_document(settings: MinecraftResponderSettings) -> Seq<char> {
    notice(
        settings.startup_message_text@,
        settings.startup_message_color@,
        settings.startup_message_bold,
    )
}

/// What a client is told while the backend is in conflict.
pub open spec fn conflict_document() -> Seq<char> {
    object(seq![text_member("color"@, "red"@), text_member("text"@, conflict_message())])
}

/// What a client of another release is told, as a text.
pub open spec fn incompatible_message(release: Release) -> Seq<char> {
    "This server requires Minecraft Java "@ + release.name + " (protocol "@ + decimal(
        release.protocol as nat,
    ) + ")."@
}

/// What a client of another release is told.
pub open spec fn incompatible_document(release: Release) -> Seq<char> {
    notice(incompatible_message(release), "red"@, true)
}

/// That a document fits into a packet.
pub open spec fn fits(document: Seq<char>) -> bool {
    utf16_units(document) <= MAX_STRING_UNITS
}

/// The packet that carries a document.
pub open spec fn document_packet(document: Seq<char>) -> Seq<u8> {
    framed(0, string_payload(document))
}

/// The prepared answers of a sleeping server.
pub struct MinecraftResponder {
    minecraft_version: MinecraftVersion,
    status_response: Vec<u8>,
    login_disconnect: Vec<u8>,
    conflict_disconnect: Vec<u8>,
    incompatible_disconnect: Vec<u8>,
}

/// Writes a styled text for clients that are turned away.
fn write_notice(text: &str, color: &str, bold: bool) -> (json: String)
    ensures
        json@ == notice(text@, color@, bold),
{
    let writer = ObjectWriter::new().boolean("bold", bold).text("color", color).text("text", text);
    assert(writer@ =~= seq![
        Member { key: "bold"@, json: boolean(bold) },
        text_member("color"@, color@),
        text_member("text"@, text@),
    ]);
    writer.finish()
}

/// Writes a styled text of the status.
fn write_component(text: &str, color: &str, bold: bool) -> (json: String)
    ensures
        json@ == component(text@, color@, bold),
{
    let writer = ObjectWriter::new().text("text", text).text("color", color).boolean("bold", bold);
    assert(writer@ =~= seq![
        text_member("text"@, text@),
        text_member("color"@, color@),
        Member { key: "bold"@, json: boolean(bold) },
    ]);
    writer.finish()
}

/// Writes the status of a sleeping server.
fn write_status(settings: &MinecraftResponderSettings) -> (json: String)
    ensures
        json@ == status_document(*settings),
{
    let version = ObjectWriter::new().text("name", settings.minecraft_version.name()).number(
        "protocol",
        settings.minecraft_version.protocol() as u64,
    );
    assert(version@ =~= seq![
        text_member("name"@, settings.minecraft_version@.name),
        number_member("protocol"@, settings.minecraft_version@.protocol as nat),
    ]);
    let nobody: Vec<String> = Vec::new();
    let sample = text_array(&nobody);
    assert(nobody@.map_values(|item: String| quoted(item@)) =~= Seq::<Seq<char>>::empty());
    let players = ObjectWriter::new().number("max", 0).number("online", 0).json(
        "sample",
        sample.as_str(),
    );
    assert(players@ =~= seq![
        number_member("max"@, 0),
        number_member("online"@, 0),
        Member { key: "sample"@, json: crate::json::array(Seq::empty()) },
    ]);
    let description = write_component(
        settings.sleeping_motd_text.as_str(),
        settings.sleeping_motd_color.as_str(),
        settings.sleeping_motd_bold,
    );
    let status = ObjectWriter::new().json("version", version.finish().as_str()).json(
        "players",
        players.finish().as_str(),
    ).json("description", description.as_str());
    assert(status@ =~= status_members(
        settings.minecraft_version@,
        settings.sleeping_motd_text@,
        settings.sleeping_motd_color@,
        settings.sleeping_motd_bold,
    ));
    match &settings.server_icon {
        Some(icon) => status.text("favicon", icon.as_str()).finish(),
        None => status.finish(),
    }
}

/// Writes what a client of another release is told.
fn write_incompatible(minecraft_version: MinecraftVersion) -> (json: String)
    ensures
        json@ == incompatible_document(minecraft_version@),
{
    let mut text = "This server requires Minecraft Java ".to_owned();
    text.append(minecraft_version.name());
    text.append(" (protocol ");
    append_decimal(&mut text, minecraft_version.protocol() as u64);
    text.append(").");
    write_notice(text.as_str(), "red", true)
}

impl MinecraftResponder {
    /// The release that the server runs.
    pub closed spec fn release(self) -> Release {
        self.minecraft_version@
    }

    /// The answer to a status request.
    pub closed spec fn status(self) -> Seq<u8> {
        self.status_response@
    }

    /// The answer to a login that wakes the server.
    pub closed spec fn startup(self) -> Seq<u8> {
        self.login_disconnect@
    }

    /// The answer to a login during a conflict.
    pub closed spec fn conflict(self) -> Seq<u8> {
        self.conflict_disconnect@
    }

    /// The answer to a login of another release.
    pub closed spec fn incompatible(self) -> Seq<u8> {
        self.incompatible_disconnect@
    }

    /// Prepares the answers. It fails exactly if one of them does not fit into a packet.
    pub fn new(settings: &MinecraftResponderSettings) -> (result: Result<
        MinecraftResponder,
        PacketError,
    >)
        ensures
            result is Ok <==> fits(status_document(*settings)) && fits(startup_document(*settings))
                && fits(conflict_document()) && fits(
                incompatible_document(settings.minecraft_version@),
            ),
            result matches Err(error) ==> error == PacketError::StringTooLong,
            result matches Ok(responder) ==> {
                &&& responder.release() == settings.minecraft_version@
                &&& responder.status() == document_packet(status_document(*settings))
                &&& responder.startup() == document_packet(startup_document(*settings))
                &&& responder.conflict() == document_packet(conflict_document())
                &&& responder.incompatible() == document_packet(
                    incompatible_document(settings.minecraft_version@),
                )
            },
    {
        let status_json = write_status(settings);
        let status_response = encode_string_packet(0, status_json.as_str())?;
        let startup_json = write_notice(
            settings.startup_message_text.as_str(),
            settings.startup_message_color.as_str(),
            settings.startup_message_bold,
        );
        let login_disconnect = encode_string_packet(0, startup_json.as_str())?;
        let conflict = ObjectWriter::new().text("color", "red").text(
            "text",
            "MCServerNap cannot safely start the server because the backend state is uncertain. Try again later or contact the server administrator.",
        );
        assert(conflict@ =~= seq![
            text_member("color"@, "red"@),
            text_member("text"@, conflict_message()),
        ]);
        let conflict_json = conflict.finish();
        let conflict_disconnect = encode_string_packet(0, conflict_json.as_str())?;
        let incompatible_json = write_incompatible(settings.minecraft_version);
        let incompatible_disconnect = encode_string_packet(0, incompatible_json.as_str())?;
        Ok(
            MinecraftResponder {
                minecraft_version: settings.minecraft_version,
                status_response,
                login_disconnect,
                conflict_disconnect,
                incompatible_disconnect,
            },
        )
    }

    /// The release that the server runs.
    pub fn minecraft_version(&self) -> (version: MinecraftVersion)
        ensures
            version@ == self.release(),
    {
        self.minecraft_version
    }

    /// The answer to a status request.
    pub fn status_response(&self) -> (packet: &[u8])
        ensures
            packet@ == self.status(),
    {
        self.status_response.as_slice()
    }

    /// The answer to a login that wakes the server.
    pub fn login_disconnect(&self) -> (packet: &[u8])
        ensures
            packet@ == self.startup(),
    {
        self.login_disconnect.as_slice()
    }

    /// The answer to a login during a conflict.
    pub fn conflict_disconnect(&self) -> (packet: &[u8])
        ensures
            packet@ == self.conflict(),
    {
        self.conflict_disconnect.as_slice()
    }

    /// The answer to a login of another release.
    pub fn incompatible_disconnect(&self) -> (packet: &[u8])
        ensures
            packet@ == self.incompatible(),
    {
        self.incompatible_disconnect.as_slice()
    }
}

/// A styled text in the status, as JSON.
proof fn lemma_component_reads_back(text: Seq<char>, color: Seq<char>, bold: bool)
    ensures
        says(
            component(text, color, bold),
            Json::Object(
                seq![
                    ("text"@, Json::Text(text)),
                    ("color"@, Json::Text(color)),
                    ("bold"@, Json::Truth(bold)),
                ],
            ),
        ),
{
    quoted_texts_read_back(text);
    quoted_texts_read_back(color);
    truths_read_back(bold);
    let members = seq![
        text_member("text"@, text),
        text_member("color"@, color),
        Member { key: "bold"@, json: boolean(bold) },
    ];
    let values = seq![Json::Text(text), Json::Text(color), Json::Truth(bold)];
    objects_read_back(members, values);
    assert(told_members(members, values) =~= seq![
        ("text"@, Json::Text(text)),
        ("color"@, Json::Text(color)),
        ("bold"@, Json::Truth(bold)),
    ]);
}

/// The release in the status, as JSON.
proof fn lemma_release_reads_back(release: Release)
    requires
        release.protocol >= 0,
    ensures
        says(
            object(
                seq![
                    text_member("name"@, release.name),
                    number_member("protocol"@, release.protocol as nat),
                ],
            ),
            Json::Object(
                seq![
                    ("name"@, Json::Text(release.name)),
                    ("protocol"@, Json::Number(release.protocol as nat)),
                ],
            ),
        ),
{
    quoted_texts_read_back(release.name);
    numbers_read_back(release.protocol as nat);
    let members = seq![
        text_member("name"@, release.name),
        number_member("protocol"@, release.protocol as nat),
    ];
    let values = seq![Json::Text(release.name), Json::Number(release.protocol as nat)];
    objects_read_back(members, values);
    assert(told_members(members, values) =~= seq![
        ("name"@, Json::Text(release.name)),
        ("protocol"@, Json::Number(release.protocol as nat)),
    ]);
}

/// The players in the status, as JSON.
proof fn lemma_nobody_reads_back()
    ensures
        says(
            object(
                seq![
                    number_member("max"@, 0),
                    number_member("online"@, 0),
                    Member { key: "sample"@, json: crate::json::array(Seq::empty()) },
                ],
            ),
            Json::Object(
                seq![
                    ("max"@, Json::Number(0)),
                    ("online"@, Json::Number(0)),
                    ("sample"@, Json::List(Seq::empty())),
                ],
            ),
        ),
{
    numbers_read_back(0);
    lists_read_back(Seq::empty(), Seq::empty());
    let members = seq![
        number_member("max"@, 0),
        number_member("online"@, 0),
        Member { key: "sample"@, json: crate::json::array(Seq::empty()) },
    ];
    let values = seq![Json::Number(0), Json::Number(0), Json::List(Seq::empty())];
    objects_read_back(members, values);
    assert(told_members(members, values) =~= seq![
        ("max"@, Json::Number(0)),
        ("online"@, Json::Number(0)),
        ("sample"@, Json::List(Seq::empty())),
    ]);
}

/// The status of a sleeping server, read as JSON, tells the release that the server runs and its
/// protocol, that nobody is there and nobody can be, the message of the day in its style, and the
/// icon if there is one; it tells nothing else.
pub proof fn sleeping_servers_tell_that_nobody_plays(settings: MinecraftResponderSettings)
    requires
        settings.minecraft_version@.protocol >= 0,
    ensures
        ({
            let members = seq![
                (
                    "version"@,
                    Json::Object(
                        seq![
                            ("name"@, Json::Text(settings.minecraft_version@.name)),
                            (
                                "protocol"@,
                                Json::Number(settings.minecraft_version@.protocol as nat),
                            ),
                        ],
                    ),
                ),
                (
                    "players"@,
                    Json::Object(
                        seq![
                            ("max"@, Json::Number(0)),
                            ("online"@, Json::Number(0)),
                            ("sample"@, Json::List(Seq::empty())),
                        ],
                    ),
                ),
                (
                    "description"@,
                    Json::Object(
                        seq![
                            ("text"@, Json::Text(settings.sleeping_motd_text@)),
                            ("color"@, Json::Text(settings.sleeping_motd_color@)),
                            ("bold"@, Json::Truth(settings.sleeping_motd_bold)),
                        ],
                    ),
                ),
            ];
            json_of(status_document(settings)) == Some(
                Json::Object(
                    match settings.server_icon {
                        Some(icon) => members.push(("favicon"@, Json::Text(icon@))),
                        None => members,
                    },
                ),
            )
        }),
{
    let release = settings.minecraft_version@;
    lemma_release_reads_back(release);
    lemma_nobody_reads_back();
    let version = seq![
        ("name"@, Json::Text(release.name)),
        ("protocol"@, Json::Number(release.protocol as nat)),
    ];
    let players = seq![
        ("max"@, Json::Number(0)),
        ("online"@, Json::Number(0)),
        ("sample"@, Json::List(Seq::empty())),
    ];
    lemma_component_reads_back(
        settings.sleeping_motd_text@,
        settings.sleeping_motd_color@,
        settings.sleeping_motd_bold,
    );
    let description = seq![
        ("text"@, Json::Text(settings.sleeping_motd_text@)),
        ("color"@, Json::Text(settings.sleeping_motd_color@)),
        ("bold"@, Json::Truth(settings.sleeping_motd_bold)),
    ];
    let members = status_members(
        release,
        settings.sleeping_motd_text@,
        settings.sleeping_motd_color@,
        settings.sleeping_motd_bold,
    );
    let values = seq![Json::Object(version), Json::Object(players), Json::Object(description)];
    let told = seq![
        ("version"@, Json::Object(version)),
        ("players"@, Json::Object(players)),
        ("description"@, Json::Object(description)),
    ];
    match settings.server_icon {
        Some(icon) => {
            quoted_texts_read_back(icon@);
            let more = members.push(text_member("favicon"@, icon@));
            let longer = values.push(Json::Text(icon@));
            objects_read_back(more, longer);
            assert(told_members(more, longer) =~= told.push(("favicon"@, Json::Text(icon@))));
        },
        None => {
            objects_read_back(members, values);
            assert(told_members(members, values) =~= told);
        },
    }
}

/// What a client is told that is turned away, read as JSON, is the text in its style.
proof fn lemma_notice_reads_back(text: Seq<char>, color: Seq<char>, bold: bool)
    ensures
        json_of(notice(text, color, bold)) == Some(
            Json::Object(
                seq![
                    ("bold"@, Json::Truth(bold)),
                    ("color"@, Json::Text(color)),
                    ("text"@, Json::Text(text)),
                ],
            ),
        ),
{
    quoted_texts_read_back(text);
    quoted_texts_read_back(color);
    truths_read_back(bold);
    let members = seq![
        Member { key: "bold"@, json: boolean(bold) },
        text_member("color"@, color),
        text_member("text"@, text),
    ];
    let values = seq![Json::Truth(bold), Json::Text(color), Json::Text(text)];
    objects_read_back(members, values);
    assert(told_members(members, values) =~= seq![
        ("bold"@, Json::Truth(bold)),
        ("color"@, Json::Text(color)),
        ("text"@, Json::Text(text)),
    ]);
}

/// A client whose login wakes the server is told the startup message in its style.
pub proof fn waking_clients_are_told_the_startup_message(settings: MinecraftResponderSettings)
    ensures
        json_of(startup_document(settings)) == Some(
            Json::Object(
                seq![
                    ("bold"@, Json::Truth(settings.startup_message_bold)),
                    ("color"@, Json::Text(settings.startup_message_color@)),
                    ("text"@, Json::Text(settings.startup_message_text@)),
                ],
            ),
        ),
{
    lemma_notice_reads_back(
        settings.startup_message_text@,
        settings.startup_message_color@,
        settings.startup_message_bold,
    );
}

/// A client of another release is told which release and protocol the server requires.
pub proof fn other_clients_are_told_the_required_release(release: Release)
    requires
        release.protocol >= 0,
    ensures
        json_of(incompatible_document(release)) == Some(
            Json::Object(
                seq![
                    ("bold"@, Json::Truth(true)),
                    ("color"@, Json::Text("red"@)),
                    (
                        "text"@,
                        Json::Text(
                            "This server requires Minecraft Java "@ + release.name
                                + " (protocol "@ + decimal(release.protocol as nat) + ")."@,
                        ),
                    ),
                ],
            ),
        ),
{
    lemma_notice_reads_back(incompatible_message(release), "red"@, true);
}

/// A client that comes during a conflict is told that the server cannot be started safely.
pub proof fn clients_are_told_of_a_conflict()
    ensures
        json_of(conflict_document()) == Some(
            Json::Object(
                seq![
                    ("color"@, Json::Text("red"@)),
                    (
                        "text"@,
                        Json::Text(
                            "MCServerNap cannot safely start the server because the backend state is uncertain. Try again later or contact the server administrator."@,
                        ),
                    ),
                ],
            ),
        ),
{
    quoted_texts_read_back("red"@);
    quoted_texts_read_back(conflict_message());
    let members = seq![text_member("color"@, "red"@), text_member("text"@, conflict_message())];
    let values = seq![Json::Text("red"@), Json::Text(conflict_message())];
    objects_read_back(members, values);
    assert(told_members(members, values) =~= seq![
        ("color"@, Json::Text("red"@)),
        ("text"@, Json::Text(conflict_message())),
    ]);
}

/// A document of at most 32767 units is sent whole: what a client reads from the packet, behind
/// its length and its number 0, is the document.
pub proof fn documents_are_sent_whole(document: Seq<char>)
    ensures
        fits(document) <==> utf16_units(document) <= 32_767,
        fits(document) ==> {
            let packet = document_packet(document);
            let found = frame_prefix_from(packet, 2_097_151, 0);
            &&& found matches FramePrefix::Body { header, length }
            &&& packet.len() == header + length
            &&& ({
                let body = packet.skip(header as int);
                &&& body[0] == 0
                &&& string_at(body, 1, 32_767) matches Ok((text, _, end))
                &&& text == document
                &&& end == body.len()
            })
        },
{
    if fits(document) {
        let payload = string_payload(document);
        utf8_bytes_per_unit(document);
        let count = encode_utf8(document).len() as u32;
        encoded_length(count);
        assert(0i32 as u32 == 0u32) by (bit_vector);
        encoded_length(0);
        reveal_with_fuel(encoded, 2);
        packet_reads_back(0, payload, 2_097_151);
        texts_are_read_anywhere(encoded(0), document, Seq::empty(), 32_767);
        let packet = document_packet(document);
        let header = packet.len() - payload.len() - 1;
        encoded_length((payload.len() + 1) as u32);
        assert(packet =~= encoded((payload.len() + 1) as u32) + (encoded(0) + payload));
        assert(0 <= header <= 5);
        let body = packet.skip(header);
        assert(body =~= encoded(0) + payload + Seq::<u8>::empty());
        assert(encoded(0).len() == 1);
        assert(body[0] == 0);
        assert(string_at(body, 1, 32_767) matches Ok((text, _, end)) && text == document && end
            == body.len());
        assert(frame_prefix_from(packet, 2_097_151, 0) == (FramePrefix::Body {
            header: header as usize,
            length: (payload.len() + 1) as usize,
        }));
    }
}

} // verus!
