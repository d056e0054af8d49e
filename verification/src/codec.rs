//! The wire format of a controller: one text frame for one command.
//!
//! A frame reads `kind:v1,v2,...`. The part before the first colon names the
//! kind, `rotation` or `position`. The part after it is a list of decimal
//! numbers between commas: four for a rotation (x, y, z, w of a quaternion),
//! three for a position (x, y, z). The library cuts the frame and counts the
//! fields. It does not read the numbers: the caller hands it the function
//! that does, and the contracts say what is built from whatever that function
//! returns.

use vstd::prelude::*;
use vstd::slice::slice_subrange;
use vstd::string::{is_ascii_spec_bytes, StringSliceAdditionalSpecFns};
use crate::command::{CommandDataType, RacketTransformCommand};
use crate::math::{Quat, Scalar, Vec3};

verus! {

/// The byte `:` that ends the kind.
pub const COLON: u8 = 0x3a;

/// The byte `,` that stands between two fields.
pub const COMMA: u8 = 0x2c;

/// The kinds of frame.
#[derive(Clone, Copy, Debug, PartialEq, Eq, Structural)]
pub enum CommandKind {
    Rotation,
    Position,
}

impl CommandKind {
    /// How many numbers a frame of this kind holds.
    pub open spec fn arity(self) -> nat {
        match self {
            CommandKind::Rotation => 4,
            CommandKind::Position => 3,
        }
    }

    pub fn field_count(self) -> (n: usize)
        ensures
            n == self.arity(),
    {
        match self {
            CommandKind::Rotation => 4,
            CommandKind::Position => 3,
        }
    }
}

/// A frame cut into its parts, each field a piece of the frame's text.
#[derive(Debug)]
pub struct Frame<'a> {
    pub kind: CommandKind,
    pub fields: Vec<&'a [u8]>,
}

/// A frame cut into its parts.
pub struct FrameParts {
    pub kind: CommandKind,
    pub fields: Seq<Seq<u8>>,
}

/// The bytes of each piece.
pub open spec fn bytes_of(pieces: Seq<&[u8]>) -> Seq<Seq<u8>> {
    Seq::new(pieces.len(), |i: int| pieces[i]@)
}

impl<'a> View for Frame<'a> {
    type V = FrameParts;

    open spec fn view(&self) -> FrameParts {
        FrameParts { kind: self.kind, fields: bytes_of(self.fields@) }
    }
}

/// The kind that a label names.
pub open spec fn kind_of(label: Seq<u8>) -> Option<CommandKind> {
    if label == "rotation".spec_bytes() {
        Some(CommandKind::Rotation)
    } else if label == "position".spec_bytes() {
        Some(CommandKind::Position)
    } else {
        None
    }
}

/// The fields of a list: what stands before its first comma, then the fields
/// of what follows that comma. A list without a comma is one field, also
/// when it is empty.
pub open spec fn fields_of(list: Seq<u8>) -> Seq<Seq<u8>>
    decreases list.len(),
{
    match list.index_of_first(COMMA) {
        Some(i) if 0 <= i < list.len() => seq![list.subrange(0, i)] + fields_of(
            list.subrange(i + 1, list.len() as int),
        ),
        _ => seq![list],
    }
}

/// The parts of a frame. A text without a colon is no frame, nor is one
/// whose label names no kind.
pub open spec fn frame_of(text: Seq<u8>) -> Option<FrameParts> {
    match text.index_of_first(COLON) {
        Some(i) => match kind_of(text.subrange(0, i)) {
            Some(kind) => Some(
                FrameParts { kind, fields: fields_of(text.subrange(i + 1, text.len() as int)) },
            ),
            None => None,
        },
        None => None,
    }
}

/// Every field was read as a number, and there are as many as the kind asks
/// for.
pub open spec fn well_read(kind: CommandKind, values: Seq<Option<Scalar>>) -> bool {
    values.len() == kind.arity() && forall|i: int| 0 <= i < values.len() ==> values[i] is Some
}

/// The command that a frame of `kind` makes, `values` being what reading each
/// of its fields gave: with all of them read and their number right, the
/// command that carries them in their order, and no command otherwise.
pub open spec fn command_of(
    kind: CommandKind,
    values: Seq<Option<Scalar>>,
) -> Option<RacketTransformCommand> {
    if !well_read(kind, values) {
        None
    } else {
        match kind {
            CommandKind::Rotation => Some(
                RacketTransformCommand {
                    command: CommandDataType::Rotation(
                        Quat {
                            x: values[0].unwrap(),
                            y: values[1].unwrap(),
                            z: values[2].unwrap(),
                            w: values[3].unwrap(),
                        },
                    ),
                },
            ),
            CommandKind::Position => Some(
                RacketTransformCommand {
                    command: CommandDataType::Position(
                        Vec3 { x: values[0].unwrap(), y: values[1].unwrap(), z: values[2].unwrap() },
                    ),
                },
            ),
        }
    }
}

/// The numbers that a command carries, in the order of its fields.
pub open spec fn carried(command: RacketTransformCommand) -> Seq<Scalar> {
    match command.command {
        CommandDataType::Rotation(q) => seq![q.x, q.y, q.z, q.w],
        CommandDataType::Position(v) => seq![v.x, v.y, v.z],
    }
}

/// What a text decodes to where `number` is what reading a field gives.
pub open spec fn decoded(
    text: Seq<u8>,
    number: spec_fn(Seq<u8>) -> Option<Scalar>,
) -> Option<RacketTransformCommand> {
    match frame_of(text) {
        Some(parts) => command_of(parts.kind, parts.fields.map_values(number)),
        None => None,
    }
}

/// `values` is what `read` can return on the fields, one by one.
pub open spec fn read_by<F: Fn(&[u8]) -> Option<Scalar>>(
    read: F,
    fields: Seq<&[u8]>,
    values: Seq<Option<Scalar>>,
) -> bool {
    values.len() == fields.len() && forall|i: int|
        0 <= i < fields.len() ==> read.ensures((#[trigger] fields[i],), values[i])
}

/// Reading is a function of the field's bytes, and `number` is that function.
pub open spec fn reads_as<F: Fn(&[u8]) -> Option<Scalar>>(
    read: F,
    number: spec_fn(Seq<u8>) -> Option<Scalar>,
) -> bool {
    forall|field: &[u8], value: Option<Scalar>| #[trigger]
        read.ensures((field,), value) ==> value == number(field@)
}

/// The fields put together again, a comma between each two.
pub open spec fn joined(fields: Seq<Seq<u8>>) -> Seq<u8>
    decreases fields.len(),
{
    if fields.len() == 0 {
        Seq::empty()
    } else if fields.len() == 1 {
        fields[0]
    } else {
        fields[0] + seq![COMMA] + joined(fields.drop_first())
    }
}

/// Where the first `mark` stands in `s`.
pub fn find_byte(s: &[u8], mark: u8) -> (r: Option<usize>)
    ensures
        r is Some ==> s@.index_of_first(mark) == Some(r.unwrap() as int),
        r is Some ==> r.unwrap() < s@.len(),
        r is None ==> s@.index_of_first(mark) is None,
{
    let mut i: usize = 0;
    while i < s.len()
        invariant
            i <= s@.len(),
            forall|j: int| 0 <= j < i ==> s@[j] != mark,
        decreases s@.len() - i,
    {
        if s[i] == mark {
            proof {
                s@.index_of_first_ensures(mark);
            }
            return Some(i);
        }
        i = i + 1;
    }
    proof {
        s@.index_of_first_ensures(mark);
    }
    None
}

/// Whether two pieces hold the same bytes.
pub fn same_bytes(a: &[u8], b: &[u8]) -> (r: bool)
    ensures
        r == (a@ == b@),
{
    if a.len() != b.len() {
        return false;
    }
    let mut i: usize = 0;
    while i < a.len()
        invariant
            i <= a@.len(),
            a@.len() == b@.len(),
            forall|j: int| 0 <= j < i ==> a@[j] == b@[j],
        decreases a@.len() - i,
    {
        if a[i] != b[i] {
            return false;
        }
        i = i + 1;
    }
    assert(a@ =~= b@);
    true
}

/// The kind that `label` names, if it names one.
pub fn kind_from_label(label: &[u8]) -> (r: Option<CommandKind>)
    ensures
        r == kind_of(label@),
{
    if same_bytes(label, "rotation".as_bytes()) {
        Some(CommandKind::Rotation)
    } else if same_bytes(label, "position".as_bytes()) {
        Some(CommandKind::Position)
    } else {
        None
    }
}

/// Cuts a list at its commas.
pub fn split_fields<'a>(list: &'a [u8]) -> (fields: Vec<&'a [u8]>)
    ensures
        bytes_of(fields@) == fields_of(list@),
{
    let mut fields: Vec<&'a [u8]> = Vec::new();
    let mut start: usize = 0;
    assert(list@.subrange(0, list@.len() as int) == list@);
    loop
        invariant_except_break
            start <= list@.len(),
            fields_of(list@) == bytes_of(fields@) + fields_of(
                list@.subrange(start as int, list@.len() as int),
            ),
        ensures
            bytes_of(fields@) == fields_of(list@),
        decreases list@.len() - start,
    {
        let rest = slice_subrange(list, start, list.len());
        match find_byte(rest, COMMA) {
            Some(i) => {
                let field = slice_subrange(rest, 0, i);
                fields.push(field);
                assert(rest@.subrange(i + 1, rest@.len() as int) == list@.subrange(
                    start + i + 1,
                    list@.len() as int,
                ));
                start = start + i + 1;
            },
            None => {
                fields.push(rest);
                break ;
            },
        }
    }
    fields
}

/// Cuts a text into the parts of a frame.
pub fn split_frame<'a>(text: &'a str) -> (r: Option<Frame<'a>>)
    ensures
        r is Some == frame_of(text.spec_bytes()) is Some,
        r is Some ==> r.unwrap()@ == frame_of(text.spec_bytes()).unwrap(),
{
    let bytes = text.as_bytes();
    let end = bytes.len();
    match find_byte(bytes, COLON) {
        Some(i) => {
            let label = slice_subrange(bytes, 0, i);
            match kind_from_label(label) {
                Some(kind) => {
                    let list = slice_subrange(bytes, i + 1, end);
                    Some(Frame { kind, fields: split_fields(list) })
                },
                None => None,
            }
        },
        None => None,
    }
}

/// Builds the command of a frame of `kind` from what reading its fields
/// gave.
pub fn command_from_fields(kind: CommandKind, values: &Vec<Option<Scalar>>) -> (r: Option<
    RacketTransformCommand,
>)
    ensures
        r == command_of(kind, values@),
{
    if values.len() != kind.field_count() {
        return None;
    }
    let mut numbers: Vec<Scalar> = Vec::new();
    let mut i: usize = 0;
    while i < values.len()
        invariant
            i <= values@.len(),
            numbers@.len() == i,
            forall|j: int| 0 <= j < i ==> values@[j] == Some(#[trigger] numbers@[j]),
        decreases values@.len() - i,
    {
        match values[i] {
            Some(number) => {
                numbers.push(number);
            },
            None => {
                return None;
            },
        }
        i = i + 1;
    }
    match kind {
        CommandKind::Rotation => Some(
            RacketTransformCommand {
                command: CommandDataType::Rotation(
                    Quat::from_xyzw(numbers[0], numbers[1], numbers[2], numbers[3]),
                ),
            },
        ),
        CommandKind::Position => Some(
            RacketTransformCommand {
                command: CommandDataType::Position(Vec3::new(numbers[0], numbers[1], numbers[2])),
            },
        ),
    }
}

/// What a text can decode to where `read` reads the fields. A text that is
/// no frame gives no command. Of a frame, the command is [`command_of`] the
/// frame's kind and what `read` returned on the fields, one by one.
pub open spec fn decodes_to<F: Fn(&[u8]) -> Option<Scalar>>(
    text: Seq<u8>,
    read: F,
    r: Option<RacketTransformCommand>,
) -> bool {
    match frame_of(text) {
        None => r is None,
        Some(parts) => exists|fields: Seq<&[u8]>, values: Seq<Option<Scalar>>|
            #![trigger read_by(read, fields, values)]
            {
                &&& bytes_of(fields) == parts.fields
                &&& read_by(read, fields, values)
                &&& r == command_of(parts.kind, values)
            },
    }
}

/// Where reading is a function of the field's bytes, decoding is a function
/// of the text: [`decoded`].
pub proof fn lemma_decodes_as_read<F: Fn(&[u8]) -> Option<Scalar>>(
    text: Seq<u8>,
    read: F,
    number: spec_fn(Seq<u8>) -> Option<Scalar>,
    r: Option<RacketTransformCommand>,
)
    requires
        decodes_to(text, read, r),
        reads_as(read, number),
    ensures
        r == decoded(text, number),
{
    if frame_of(text) is Some {
        let parts = frame_of(text).unwrap();
        let (fields, values) = choose|fields: Seq<&[u8]>, values: Seq<Option<Scalar>>|
            #![trigger read_by(read, fields, values)]
            {
                &&& bytes_of(fields) == parts.fields
                &&& read_by(read, fields, values)
                &&& r == command_of(parts.kind, values)
            };
        assert(forall|j: int| 0 <= j < values.len() ==> values[j] == number(fields[j]@));
    }
}

/// Decodes one frame. `read_number` reads one field as a number, or finds
/// that it is none.
///
/// A text that is no frame gives no command, and `read_number` is not
/// called. Of a frame every field is read, in order, and the command is
/// [`command_of`] the frame's kind and what was read: see [`decodes_to`].
/// So where `read_number` returns the same for the same bytes, the command
/// is [`decoded`] from the text.
pub fn parse_transform_command<F: Fn(&[u8]) -> Option<Scalar>>(text: &str, read_number: F) -> (r:
    Option<RacketTransformCommand>)
    requires
        forall|field: &[u8]| #[trigger] read_number.requires((field,)),
    ensures
        decodes_to(text.spec_bytes(), read_number, r),
        forall|number: spec_fn(Seq<u8>) -> Option<Scalar>| #[trigger]
            reads_as(read_number, number) ==> r == decoded(text.spec_bytes(), number),
{
    match split_frame(text) {
        Some(frame) => {
            let mut values: Vec<Option<Scalar>> = Vec::new();
            let mut i: usize = 0;
            while i < frame.fields.len()
                invariant
                    i <= frame.fields@.len(),
                    values@.len() == i,
                    forall|field: &[u8]| #[trigger] read_number.requires((field,)),
                    forall|j: int|
                        0 <= j < i ==> read_number.ensures((#[trigger] frame.fields@[j],), values@[j]),
                decreases frame.fields@.len() - i,
            {
                let value = read_number(frame.fields[i]);
                values.push(value);
                i = i + 1;
            }
            let r = command_from_fields(frame.kind, &values);
            proof {
                assert(read_by(read_number, frame.fields@, values@));
                assert forall|number: spec_fn(Seq<u8>) -> Option<Scalar>| #[trigger]
                    reads_as(read_number, number) implies r == decoded(
                    text.spec_bytes(),
                    number,
                ) by {
                    lemma_decodes_as_read(text.spec_bytes(), read_number, number, r);
                }
            }
            r
        },
        None => None,
    }
}

/// Cutting undoes joining: fields without a comma in them, joined by
/// commas, are cut into those same fields.
pub proof fn lemma_fields_of_joined(fields: Seq<Seq<u8>>)
    requires
        fields.len() > 0,
        forall|i: int| 0 <= i < fields.len() ==> !(#[trigger] fields[i]).contains(COMMA),
    ensures
        fields_of(joined(fields)) == fields,
    decreases fields.len(),
{
    let list = joined(fields);
    list.index_of_first_ensures(COMMA);
    if fields.len() > 1 {
        let head = fields[0];
        let tail = fields.drop_first();
        let k = head.len() as int;
        assert(list[k] == COMMA);
        assert(forall|j: int| 0 <= j < k ==> list[j] != COMMA);
        assert(list.subrange(0, k) == head);
        assert(list.subrange(k + 1, list.len() as int) == joined(tail));
        assert(forall|i: int| 0 <= i < tail.len() ==> !(#[trigger] tail[i]).contains(COMMA));
        lemma_fields_of_joined(tail);
    }
}

/// A label that names a kind, a colon and a list make a frame of that kind
/// with the fields of the list, provided that the label holds no colon.
pub proof fn lemma_frame_of_labelled(label: Seq<u8>, list: Seq<u8>)
    requires
        !label.contains(COLON),
        kind_of(label) is Some,
    ensures
        frame_of(label + seq![COLON] + list) == Some(
            FrameParts { kind: kind_of(label).unwrap(), fields: fields_of(list) },
        ),
{
    let text = label + seq![COLON] + list;
    let k = label.len() as int;
    text.index_of_first_ensures(COLON);
    assert(text[k] == COLON);
    assert(forall|j: int| 0 <= j < k ==> text[j] != COLON);
    assert(text.subrange(0, k) == label);
    assert(text.subrange(k + 1, text.len() as int) == list);
}

/// A command comes out of exactly the well-formed frames. Whatever the text
/// and whatever reading a field gives: the text decodes to a command if and
/// only if it is a frame, the frame has as many fields as its kind asks for,
/// and every field reads as a number. The command is then of the frame's
/// kind and carries the numbers read, in the order of the fields. So a text
/// without a colon, a label that names no kind, a field too many or too few,
/// and a field that is no number each give no command.
pub proof fn lemma_decoded_exactly(text: Seq<u8>, number: spec_fn(Seq<u8>) -> Option<Scalar>)
    ensures
        decoded(text, number) is Some <==> frame_of(text) is Some && well_read(
            frame_of(text).unwrap().kind,
            frame_of(text).unwrap().fields.map_values(number),
        ),
        !text.contains(COLON) ==> decoded(text, number) is None,
        decoded(text, number) is Some ==> (frame_of(text).unwrap().kind == CommandKind::Rotation
            <==> decoded(text, number).unwrap().command is Rotation),
        decoded(text, number) is Some ==> forall|i: int|
            0 <= i < frame_of(text).unwrap().fields.len() ==> number(
                #[trigger] frame_of(text).unwrap().fields[i],
            ) == Some(carried(decoded(text, number).unwrap())[i]),
        decoded(text, number) is Some ==> carried(decoded(text, number).unwrap()).len()
            == frame_of(text).unwrap().fields.len(),
{
    text.index_of_first_ensures(COLON);
}

/// A rotation frame with four numeric fields gives the rotation that carries
/// the four numbers in the order x, y, z, w.
pub proof fn lemma_rotation_frame_decodes(
    x: Seq<u8>,
    y: Seq<u8>,
    z: Seq<u8>,
    w: Seq<u8>,
    number: spec_fn(Seq<u8>) -> Option<Scalar>,
)
    requires
        !x.contains(COMMA) && !y.contains(COMMA) && !z.contains(COMMA) && !w.contains(COMMA),
        number(x) is Some && number(y) is Some && number(z) is Some && number(w) is Some,
    ensures
        decoded("rotation".spec_bytes() + seq![COLON] + joined(seq![x, y, z, w]), number) == Some(
            RacketTransformCommand {
                command: CommandDataType::Rotation(
                    Quat {
                        x: number(x).unwrap(),
                        y: number(y).unwrap(),
                        z: number(z).unwrap(),
                        w: number(w).unwrap(),
                    },
                ),
            },
        ),
{
    let label = "rotation".spec_bytes();
    let fields = seq![x, y, z, w];
    lemma_label_bytes();
    lemma_fields_of_joined(fields);
    lemma_frame_of_labelled(label, joined(fields));
    let values = fields.map_values(number);
}

/// A position frame with three numeric fields gives the position that
/// carries the three numbers in the order x, y, z.
pub proof fn lemma_position_frame_decodes(
    x: Seq<u8>,
    y: Seq<u8>,
    z: Seq<u8>,
    number: spec_fn(Seq<u8>) -> Option<Scalar>,
)
    requires
        !x.contains(COMMA) && !y.contains(COMMA) && !z.contains(COMMA),
        number(x) is Some && number(y) is Some && number(z) is Some,
    ensures
        decoded("position".spec_bytes() + seq![COLON] + joined(seq![x, y, z]), number) == Some(
            RacketTransformCommand {
                command: CommandDataType::Position(
                    Vec3 { x: number(x).unwrap(), y: number(y).unwrap(), z: number(z).unwrap() },
                ),
            },
        ),
{
    let label = "position".spec_bytes();
    let fields = seq![x, y, z];
    lemma_label_bytes();
    lemma_fields_of_joined(fields);
    lemma_frame_of_labelled(label, joined(fields));
    let values = fields.map_values(number);
}

/// The two labels differ, and neither holds a colon.
pub proof fn lemma_label_bytes()
    ensures
        "rotation".spec_bytes() != "position".spec_bytes(),
        !"rotation".spec_bytes().contains(COLON),
        !"position".spec_bytes().contains(COLON),
        kind_of("rotation".spec_bytes()) == Some(CommandKind::Rotation),
        kind_of("position".spec_bytes()) == Some(CommandKind::Position),
{
    reveal_strlit("rotation");
    reveal_strlit("position");
    is_ascii_spec_bytes("rotation");
    is_ascii_spec_bytes("position");
    assert("position".spec_bytes()[0] == 0x70u8);
}

} // verus!
