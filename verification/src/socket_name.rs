//! Names of the local sockets that a listener binds.
use vstd::prelude::*;

verus! {

/// The sixteen lower-case hexadecimal digits, by value.
pub open spec fn hex_digits() -> Seq<char> {
    seq!['0', '1', '2', '3', '4', '5', '6', '7', '8', '9', 'a', 'b', 'c', 'd', 'e', 'f']
}

/// The two lower-case hexadecimal digits of a byte, high nibble first.
pub open spec fn byte_hex(b: u8) -> Seq<char> {
    seq![hex_digits()[(b / 16) as int], hex_digits()[(b % 16) as int]]
}

/// The lower-case hexadecimal text of a byte sequence, two digits per byte.
pub open spec fn hex_text(bytes: Seq<u8>) -> Seq<char>
    decreases bytes.len(),
{
    if bytes.len() == 0 {
        Seq::empty()
    } else {
        byte_hex(bytes[0]) + hex_text(bytes.drop_first())
    }
}

/// The hyphenated text of a 16-byte UUID: groups of 4, 2, 2, 2 and 6 bytes
/// in lower-case hexadecimal, separated by `-`.
pub open spec fn uuid_text(id: Seq<u8>) -> Seq<char> {
    hex_text(id.subrange(0, 4)) + seq!['-'] + hex_text(id.subrange(4, 6)) + seq!['-']
        + hex_text(id.subrange(6, 8)) + seq!['-'] + hex_text(id.subrange(8, 10)) + seq!['-']
        + hex_text(id.subrange(10, 16))
}

/// The text of the socket name made from a UUID: `@`, the hyphenated UUID,
/// then `.sock`.
pub open spec fn uuid_socket_name(id: Seq<u8>) -> Seq<char> {
    seq!['@'] + uuid_text(id) + seq!['.', 's', 'o', 'c', 'k']
}

/// The file name that a socket gets inside a fresh temporary directory.
pub open spec fn socket_file_name_text() -> Seq<char> {
    seq!['i', 'p', 'c', '_', 's', 'o', 'c', 'k', 'e', 't']
}

/// Formats the UUID with bytes `id` through `uuid::Uuid`'s `Display`
/// (`Uuid::from_bytes(id).hyphenated().to_string()`): the `uuid` crate
/// documents this as the hyphenated form in lower-case hexadecimal, which
/// `uuid_text` states digit by digit.
#[verifier::external_body]
fn uuid_hyphenated(id: [u8; 16]) -> (text: String)
    ensures
        text@ == uuid_text(id@),
{
    uuid::Uuid::from_bytes(id).hyphenated().to_string()
}

/// The socket name `@<uuid>.sock` for the UUID with bytes `id`: the form of a
/// freshly generated socket name on systems that name local sockets in a
/// namespace of their own.
pub fn socket_name_from_uuid(id: [u8; 16]) -> (name: String)
    ensures
        name@ == uuid_socket_name(id@),
{
    let text = uuid_hyphenated(id);
    proof {
        reveal_strlit("@");
        reveal_strlit(".sock");
    }
    let mut name = String::from_str("@");
    name.append(text.as_str());
    name.append(".sock");
    name
}

/// The file name of a socket created inside a fresh temporary directory.
pub fn socket_file_name() -> (name: &'static str)
    ensures
        name@ == socket_file_name_text(),
{
    proof {
        reveal_strlit("ipc_socket");
    }
    "ipc_socket"
}

/// Two hexadecimal digits of the table stand for the same value only when
/// they are the same digit.
proof fn lemma_hex_digit_injective(i: int, j: int)
    requires
        0 <= i < 16,
        0 <= j < 16,
        hex_digits()[i] == hex_digits()[j],
    ensures
        i == j,
{
}

proof fn lemma_byte_hex_injective(a: u8, b: u8)
    requires
        byte_hex(a) == byte_hex(b),
    ensures
        a == b,
{
    assert(byte_hex(a)[0] == byte_hex(b)[0]);
    assert(byte_hex(a)[1] == byte_hex(b)[1]);
    lemma_hex_digit_injective((a / 16) as int, (b / 16) as int);
    lemma_hex_digit_injective((a % 16) as int, (b % 16) as int);
}

/// The hexadecimal text of `n` bytes has `2 * n` digits.
pub proof fn lemma_hex_text_len(bytes: Seq<u8>)
    ensures
        hex_text(bytes).len() == 2 * bytes.len(),
    decreases bytes.len(),
{
    if bytes.len() > 0 {
        lemma_hex_text_len(bytes.drop_first());
    }
}

/// Byte sequences of one length with the same hexadecimal text are equal.
pub proof fn lemma_hex_text_injective(a: Seq<u8>, b: Seq<u8>)
    requires
        a.len() == b.len(),
        hex_text(a) == hex_text(b),
    ensures
        a == b,
    decreases a.len(),
{
    if a.len() > 0 {
        let ta = hex_text(a);
        let tb = hex_text(b);
        lemma_hex_text_len(a.drop_first());
        lemma_hex_text_len(b.drop_first());
        assert(ta.subrange(0, 2) == byte_hex(a[0]));
        assert(tb.subrange(0, 2) == byte_hex(b[0]));
        lemma_byte_hex_injective(a[0], b[0]);
        assert(ta.subrange(2, ta.len() as int) == hex_text(a.drop_first()));
        assert(tb.subrange(2, tb.len() as int) == hex_text(b.drop_first()));
        lemma_hex_text_injective(a.drop_first(), b.drop_first());
        assert(a =~= seq![a[0]] + a.drop_first());
        assert(b =~= seq![b[0]] + b.drop_first());
    }
}

/// The hyphenated text of a UUID has 36 characters, with `-` at positions
/// 8, 13, 18 and 23 and hexadecimal groups between them.
pub proof fn lemma_uuid_text_layout(id: Seq<u8>)
    requires
        id.len() == 16,
    ensures
        uuid_text(id).len() == 36,
        uuid_text(id)[8] == '-',
        uuid_text(id)[13] == '-',
        uuid_text(id)[18] == '-',
        uuid_text(id)[23] == '-',
        uuid_text(id).subrange(0, 8) == hex_text(id.subrange(0, 4)),
        uuid_text(id).subrange(9, 13) == hex_text(id.subrange(4, 6)),
        uuid_text(id).subrange(14, 18) == hex_text(id.subrange(6, 8)),
        uuid_text(id).subrange(19, 23) == hex_text(id.subrange(8, 10)),
        uuid_text(id).subrange(24, 36) == hex_text(id.subrange(10, 16)),
{
    lemma_hex_text_len(id.subrange(0, 4));
    lemma_hex_text_len(id.subrange(4, 6));
    lemma_hex_text_len(id.subrange(6, 8));
    lemma_hex_text_len(id.subrange(8, 10));
    lemma_hex_text_len(id.subrange(10, 16));
    let t = uuid_text(id);
    assert(t.subrange(0, 8) =~= hex_text(id.subrange(0, 4)));
    assert(t.subrange(9, 13) =~= hex_text(id.subrange(4, 6)));
    assert(t.subrange(14, 18) =~= hex_text(id.subrange(6, 8)));
    assert(t.subrange(19, 23) =~= hex_text(id.subrange(8, 10)));
    assert(t.subrange(24, 36) =~= hex_text(id.subrange(10, 16)));
}

/// A socket name made from a UUID has 42 characters: `@`, the 36 characters
/// of the hyphenated UUID, then `.sock`.
pub proof fn lemma_socket_name_layout(id: Seq<u8>)
    requires
        id.len() == 16,
    ensures
        uuid_socket_name(id).len() == 42,
        uuid_socket_name(id)[0] == '@',
        uuid_socket_name(id).subrange(1, 37) == uuid_text(id),
        uuid_socket_name(id).subrange(37, 42) == seq!['.', 's', 'o', 'c', 'k'],
{
    lemma_uuid_text_layout(id);
    let n = uuid_socket_name(id);
    assert(n.subrange(1, 37) =~= uuid_text(id));
    assert(n.subrange(37, 42) =~= seq!['.', 's', 'o', 'c', 'k']);
}

/// Distinct UUIDs give distinct socket names, so a freshly drawn UUID names
/// a socket that no other UUID names.
pub proof fn lemma_socket_name_injective(a: Seq<u8>, b: Seq<u8>)
    requires
        a.len() == 16,
        b.len() == 16,
        uuid_socket_name(a) == uuid_socket_name(b),
    ensures
        a == b,
{
    lemma_socket_name_layout(a);
    lemma_socket_name_layout(b);
    let ta = uuid_text(a);
    let tb = uuid_text(b);
    assert(ta == tb) by {
        assert(uuid_socket_name(a).subrange(1, 37) == uuid_socket_name(b).subrange(1, 37));
    }
    lemma_uuid_text_layout(a);
    lemma_uuid_text_layout(b);
    lemma_hex_text_injective(a.subrange(0, 4), b.subrange(0, 4));
    lemma_hex_text_injective(a.subrange(4, 6), b.subrange(4, 6));
    lemma_hex_text_injective(a.subrange(6, 8), b.subrange(6, 8));
    lemma_hex_text_injective(a.subrange(8, 10), b.subrange(8, 10));
    lemma_hex_text_injective(a.subrange(10, 16), b.subrange(10, 16));
    assert forall|i: int| 0 <= i < 16 implies a[i] == b[i] by {
        if i < 4 {
            assert(a.subrange(0, 4)[i] == b.subrange(0, 4)[i]);
        } else if i < 6 {
            assert(a.subrange(4, 6)[i - 4] == b.subrange(4, 6)[i - 4]);
        } else if i < 8 {
            assert(a.subrange(6, 8)[i - 6] == b.subrange(6, 8)[i - 6]);
        } else if i < 10 {
            assert(a.subrange(8, 10)[i - 8] == b.subrange(8, 10)[i - 8]);
        } else {
            assert(a.subrange(10, 16)[i - 10] == b.subrange(10, 16)[i - 10]);
        }
    }
    assert(a =~= b);
}

} // verus!
