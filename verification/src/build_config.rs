//! The oldest macOS version that native code is built for.
use vstd::prelude::*;
use vstd::string::StrSliceExecFns;
use vstd::string::StringExecFns;

verus! {

/// Why a deployment target is refused.
#[derive(Debug)]
pub enum BuildConfigError {
    /// The architecture is not one of macOS.
    UnsupportedArchitecture {
        /// The architecture.
        arch: String,
    },
    /// The requested version is none.
    InvalidTarget {
        /// What was requested.
        requested: String,
    },
    /// The requested version is older than the architecture.
    BelowMinimum {
        /// What was requested.
        requested: String,
        /// The architecture.
        arch: String,
        /// The first version with that architecture.
        minimum: String,
    },
}

/// How a refusal is reported to the build.
#[derive(Clone, Copy, Debug, PartialEq, Eq, Structural)]
pub enum BuildErrorKind {
    /// An argument is not acceptable.
    InvalidInput,
}

/// Text in quotation marks, with what cannot stand between them escaped.
pub uninterp spec fn quoted(text: Seq<char>) -> Seq<char>;

/// Formats text with the `Debug` implementation of `str`, which puts it in
/// quotation marks and escapes it; the result depends on the text alone.
#[verifier::external_body]
fn quote(text: &str) -> (formatted: String)
    ensures
        formatted@ == quoted(text@),
{
    format!("{text:?}")
}

impl BuildConfigError {
    /// What a reader is told.
    pub open spec fn text(self) -> Seq<char> {
        match self {
            BuildConfigError::UnsupportedArchitecture { arch } =>
                "unsupported macOS architecture: "@ + arch@,
            BuildConfigError::InvalidTarget { requested } => "invalid MACOSX_DEPLOYMENT_TARGET: "@
                + quoted(requested@),
            BuildConfigError::BelowMinimum { requested, arch, minimum } =>
                "MACOSX_DEPLOYMENT_TARGET "@ + requested@ + " is below "@ + arch@ + " minimum "@
                + minimum@,
        }
    }

    /// How the refusal is reported: what was asked for is at fault, whichever
    /// part of it.
    pub fn kind(&self) -> (kind: BuildErrorKind)
        ensures
            kind is InvalidInput,
    {
        BuildErrorKind::InvalidInput
    }

    /// What a reader is told.
    pub fn message(&self) -> (message: String)
        ensures
            message@ == self.text(),
    {
        let mut message = String::new();
        match self {
            BuildConfigError::UnsupportedArchitecture { arch } => {
                message.append("unsupported macOS architecture: ");
                message.append(arch.as_str());
            },
            BuildConfigError::InvalidTarget { requested } => {
                message.append("invalid MACOSX_DEPLOYMENT_TARGET: ");
                message.append(quote(requested.as_str()).as_str());
            },
            BuildConfigError::BelowMinimum { requested, arch, minimum } => {
                message.append("MACOSX_DEPLOYMENT_TARGET ");
                message.append(requested.as_str());
                message.append(" is below ");
                message.append(arch.as_str());
                message.append(" minimum ");
                message.append(minimum.as_str());
            },
        }
        assert(message@ =~= self.text());
        message
    }
}

/// The parts between the full stops of a text.
pub open spec fn parts(text: Seq<char>) -> Seq<Seq<char>>
    decreases text.len(),
{
    if text.len() == 0 {
        seq![Seq::<char>::empty()]
    } else {
        let before = parts(text.drop_last());
        if text.last() == '.' {
            before.push(Seq::<char>::empty())
        } else {
            before.drop_last().push(before.last().push(text.last()))
        }
    }
}

/// Whether a character is a decimal digit.
pub open spec fn is_digit(c: char) -> bool {
    '0' <= c && c <= '9'
}

/// The number that digits stand for.
pub open spec fn number(digits: Seq<char>) -> nat
    decreases digits.len(),
{
    if digits.len() == 0 {
        0
    } else {
        number(digits.drop_last()) * 10 + (digits.last() as nat - '0' as nat) as nat
    }
}

/// Whether a part holds digits only, of a number that a version can have.
pub open spec fn countable(part: Seq<char>) -> bool {
    &&& forall|i: int| 0 <= i < part.len() ==> is_digit(#[trigger] part[i])
    &&& number(part) <= u32::MAX
}

/// Whether a part is the number of a version.
pub open spec fn is_number(part: Seq<char>) -> bool {
    part.len() > 0 && countable(part)
}

/// Whether a text is a version: one to three numbers.
pub open spec fn is_version(text: Seq<char>) -> bool {
    &&& parts(text).len() <= 3
    &&& forall|i: int| 0 <= i < parts(text).len() ==> is_number(#[trigger] parts(text)[i])
}

/// One of the three numbers of a version; missing ones are zero.
pub open spec fn component(text: Seq<char>, index: int) -> nat {
    if index < parts(text).len() {
        number(parts(text)[index])
    } else {
        0
    }
}

/// Whether one version is older than another.
pub open spec fn older(
    major: nat,
    minor: nat,
    patch: nat,
    than_major: nat,
    than_minor: nat,
    than_patch: nat,
) -> bool {
    ||| major < than_major
    ||| major == than_major && minor < than_minor
    ||| major == than_major && minor == than_minor && patch < than_patch
}

proof fn there_is_a_part(text: Seq<char>)
    ensures
        parts(text).len() > 0,
    decreases text.len(),
{
    if text.len() > 0 {
        there_is_a_part(text.drop_last());
    }
}

proof fn longer_parts_stay_uncountable(part: Seq<char>, c: char)
    requires
        !countable(part) || !is_digit(c),
    ensures
        !countable(part.push(c)),
{
    let longer = part.push(c);
    assert(longer.drop_last() =~= part);
    if is_digit(c) {
        if forall|i: int| 0 <= i < part.len() ==> is_digit(#[trigger] part[i]) {
            assert(number(longer) >= number(part));
        } else {
            let i = choose|i: int| 0 <= i < part.len() && !is_digit(#[trigger] part[i]);
            assert(longer[i] == part[i]);
        }
    } else {
        assert(longer[part.len() as int] == c);
    }
}

/// A version that is being read.
struct Reading {
    major: u32,
    minor: u32,
    patch: u32,
    index: usize,
    value: u32,
    empty: bool,
    sound: bool,
}

/// The parts before the last are numbers, the last may still become one, and
/// there are no more than three.
spec fn promising(text: Seq<char>) -> bool {
    let all = parts(text);
    &&& all.len() <= 3
    &&& forall|i: int| 0 <= i < all.len() - 1 ==> is_number(#[trigger] all[i])
    &&& countable(all.last())
}

impl Reading {
    spec fn reads(self, text: Seq<char>) -> bool {
        let all = parts(text);
        &&& self.sound == promising(text)
        &&& self.sound ==> {
            &&& self.index == all.len() - 1
            &&& self.value == number(all.last())
            &&& self.empty == (all.last().len() == 0)
            &&& self.major == if all.len() > 1 {
                number(all[0])
            } else {
                0
            }
            &&& self.minor == if all.len() > 2 {
                number(all[1])
            } else {
                0
            }
            &&& self.patch == 0
        }
    }

    fn new() -> (reading: Self)
        ensures
            reading.reads(Seq::<char>::empty()),
    {
        assert(parts(Seq::<char>::empty()) =~= seq![Seq::<char>::empty()]);
        Reading { major: 0, minor: 0, patch: 0, index: 0, value: 0, empty: true, sound: true }
    }

    /// Puts the number that was read into its place.
    fn finish_part(&mut self)
        requires
            old(self).index <= 2,
        ensures
            *final(self) == (Reading {
                major: if old(self).index == 0 {
                    old(self).value
                } else {
                    old(self).major
                },
                minor: if old(self).index == 1 {
                    old(self).value
                } else {
                    old(self).minor
                },
                patch: if old(self).index == 2 {
                    old(self).value
                } else {
                    old(self).patch
                },
                ..*old(self)
            }),
    {
        if self.index == 0 {
            self.major = self.value;
        } else if self.index == 1 {
            self.minor = self.value;
        } else {
            self.patch = self.value;
        }
    }

    fn read_stop(&mut self, Ghost(text): Ghost<Seq<char>>)
        requires
            old(self).reads(text),
        ensures
            final(self).reads(text.push('.')),
    {
        proof {
            there_is_a_part(text);
            assert(text.push('.').drop_last() =~= text);
            let all = parts(text);
            let more = parts(text.push('.'));
            assert(more =~= all.push(Seq::<char>::empty()));
            assert(more[all.len() - 1] == all.last());
            assert forall|i: int| 0 <= i < all.len() implies more[i] == all[i] by {}
        }
        if !self.sound || self.empty || self.index >= 2 {
            self.sound = false;
        } else {
            self.finish_part();
            self.index = self.index + 1;
            self.value = 0;
            self.empty = true;
        }
    }

    fn read_other(&mut self, c: char, Ghost(text): Ghost<Seq<char>>)
        requires
            old(self).reads(text),
            c != '.',
        ensures
            final(self).reads(text.push(c)),
    {
        let ghost all = parts(text);
        let ghost more = parts(text.push(c));
        let ghost last = all.last().push(c);
        proof {
            there_is_a_part(text);
            assert(text.push(c).drop_last() =~= text);
            assert(more =~= all.drop_last().push(last));
            assert(more.last() == last);
            assert(last.drop_last() =~= all.last());
            assert forall|i: int| 0 <= i < all.len() - 1 implies more[i] == all[i] by {}
            if !countable(all.last()) || !is_digit(c) {
                longer_parts_stay_uncountable(all.last(), c);
            }
        }
        if !self.sound || c < '0' || c > '9' {
            self.sound = false;
            return;
        }
        let digit: u32 = c as u32 - '0' as u32;
        let value: Option<u32> = match self.value.checked_mul(10) {
            Some(tens) => tens.checked_add(digit),
            None => None,
        };
        proof {
            assert(number(last) == number(all.last()) * 10 + digit);
            assert forall|i: int| 0 <= i < last.len() implies is_digit(#[trigger] last[i]) by {
                if i < all.last().len() {
                    assert(last[i] == all.last()[i]);
                }
            }
        }
        match value {
            Some(value) => {
                self.value = value;
                self.empty = false;
            },
            None => {
                self.sound = false;
            },
        }
    }
}

/// The numbers of a version, if the text is one.
fn read_version(text: &str) -> (version: Option<(u32, u32, u32)>)
    ensures
        match version {
            Some((major, minor, patch)) => {
                &&& is_version(text@)
                &&& major == component(text@, 0)
                &&& minor == component(text@, 1)
                &&& patch == component(text@, 2)
            },
            None => !is_version(text@),
        },
{
    let len: usize = text.unicode_len();
    let mut reading = Reading::new();
    let mut i: usize = 0;
    assert(text@.take(0) =~= Seq::<char>::empty());
    while i < len
        invariant
            i <= len,
            len == text@.len(),
            reading.reads(text@.take(i as int)),
        decreases len - i,
    {
        let c = text.get_char(i);
        let ghost before = text@.take(i as int);
        assert(text@.take(i as int + 1) =~= before.push(c));
        if c == '.' {
            reading.read_stop(Ghost(before));
        } else {
            reading.read_other(c, Ghost(before));
        }
        i = i + 1;
    }
    assert(text@.take(len as int) =~= text@);
    proof {
        there_is_a_part(text@);
    }
    let ghost all = parts(text@);
    if !reading.sound || reading.empty {
        assert(!is_version(text@)) by {
            if is_version(text@) {
                assert(is_number(all[all.len() - 1]));
                assert forall|i: int| 0 <= i < all.len() - 1 implies is_number(
                    #[trigger] all[i],
                ) by {}
            }
        }
        return None;
    }
    reading.finish_part();
    assert forall|i: int| 0 <= i < all.len() implies is_number(#[trigger] all[i]) by {
        if i == all.len() - 1 {
            assert(all[i] == all.last());
        }
    }
    Some((reading.major, reading.minor, reading.patch))
}

/// The first macOS version with an architecture: its numbers and its text.
pub open spec fn first_version(arch: Seq<char>) -> Option<(nat, nat, Seq<char>)> {
    if arch == "x86_64"@ {
        Some((10, 14, "10.14"@))
    } else if arch == "aarch64"@ {
        Some((11, 0, "11.0"@))
    } else {
        None
    }
}

/// Chooses the deployment target: the requested one, or else the first version
/// with the architecture. A request that is no version, or an older one, is
/// refused.
pub fn deployment_target(arch: &str, requested: Option<&str>) -> (target: Result<
    String,
    BuildConfigError,
>)
    ensures
        match first_version(arch@) {
            None => target matches Err(BuildConfigError::UnsupportedArchitecture { arch: named })
                && named@ == arch@,
            Some((major, minor, first)) => match requested {
                None => target matches Ok(chosen) && chosen@ == first,
                Some(wanted) => if !is_version(wanted@) {
                    target matches Err(BuildConfigError::InvalidTarget { requested: named })
                        && named@ == wanted@
                } else if older(
                    component(wanted@, 0),
                    component(wanted@, 1),
                    component(wanted@, 2),
                    major,
                    minor,
                    0,
                ) {
                    target matches Err(
                        BuildConfigError::BelowMinimum {
                            requested: named,
                            arch: on,
                            minimum,
                        },
                    ) && named@ == wanted@ && on@ == arch@ && minimum@ == first
                } else {
                    target matches Ok(chosen) && chosen@ == wanted@
                },
            },
        },
{
    let named = arch.to_owned();
    let (major, minor, first): (u32, u32, &str) = if named == "x86_64".to_owned() {
        (10, 14, "10.14")
    } else if named == "aarch64".to_owned() {
        (11, 0, "11.0")
    } else {
        return Err(BuildConfigError::UnsupportedArchitecture { arch: named });
    };
    let wanted = match requested {
        Some(wanted) => wanted,
        None => {
            return Ok(first.to_owned());
        },
    };
    match read_version(wanted) {
        Some(version) => {
            if version.0 < major || (version.0 == major && version.1 < minor) {
                return Err(
                    BuildConfigError::BelowMinimum {
                        requested: wanted.to_owned(),
                        arch: named,
                        minimum: first.to_owned(),
                    },
                );
            }
            Ok(wanted.to_owned())
        },
        None => Err(BuildConfigError::InvalidTarget { requested: wanted.to_owned() }),
    }
}

/// Text put together from parts with full stops between them.
pub open spec fn joined(all: Seq<Seq<char>>) -> Seq<char>
    decreases all.len(),
{
    if all.len() == 0 {
        Seq::empty()
    } else if all.len() == 1 {
        all[0]
    } else {
        joined(all.drop_last()).push('.') + all.last()
    }
}

/// The parts of a text, put together again, are the text, and none of them holds a
/// full stop.
pub proof fn parts_make_up_the_text(text: Seq<char>)
    ensures
        parts(text).len() > 0,
        joined(parts(text)) == text,
        forall|i: int, j: int|
            #![trigger parts(text)[i][j]]
            0 <= i < parts(text).len() && 0 <= j < parts(text)[i].len() ==> parts(text)[i][j]
                != '.',
    decreases text.len(),
{
    let all = parts(text);
    if text.len() == 0 {
        assert(joined(all) =~= text);
    } else {
        let rest = text.drop_last();
        let before = parts(rest);
        parts_make_up_the_text(rest);
        assert(rest.push(text.last()) =~= text);
        if text.last() == '.' {
            assert(all.drop_last() =~= before);
            assert(joined(all) =~= text);
        } else {
            assert(all.drop_last() =~= before.drop_last());
            if before.len() == 1 {
                assert(joined(all) =~= text);
            } else {
                assert(joined(before) == joined(before.drop_last()).push('.') + before.last());
                assert(joined(all) =~= text);
            }
        }
        assert forall|i: int, j: int|
            #![trigger all[i][j]]
            0 <= i < all.len() && 0 <= j < all[i].len() implies all[i][j] != '.' by {
            if text.last() == '.' {
                if i < before.len() {
                    assert(all[i] == before[i]);
                    assert(before[i][j] != '.');
                }
            } else if i < before.len() - 1 {
                assert(all[i] == before[i]);
                assert(before[i][j] != '.');
            } else if j < before.last().len() {
                assert(all[i][j] == before.last()[j]);
                assert(before[before.len() - 1][j] != '.');
            }
        }
    }
}

/// Versions are compared number by number, the first that differs decides, and of
/// two different versions exactly one is older.
pub proof fn the_first_difference_decides(
    major: nat,
    minor: nat,
    patch: nat,
    other_major: nat,
    other_minor: nat,
    other_patch: nat,
)
    ensures
        ({
            let before = older(major, minor, patch, other_major, other_minor, other_patch);
            let after = older(other_major, other_minor, other_patch, major, minor, patch);
            &&& major < other_major ==> before
            &&& major == other_major && minor < other_minor ==> before
            &&& major == other_major && minor == other_minor && patch < other_patch ==> before
            &&& !(before && after)
            &&& !before && !after <==> major == other_major && minor == other_minor && patch
                == other_patch
        }),
{
}

/// Digits are read as the number that they stand for: an empty part as none, and
/// each further digit as ten times what stands before it and itself.
pub proof fn digits_are_read_from_the_left(digits: Seq<char>, c: char)
    requires
        '0' <= c <= '9',
    ensures
        number(Seq::empty()) == 0,
        number(digits.push(c)) == 10 * number(digits) + (c as int - 48),
        is_digit(c),
        !is_digit('.') && !is_digit('-') && !is_digit(' ') && !is_digit('a'),
        !is_number(Seq::empty()),
        !is_version(Seq::empty()),
{
    assert(digits.push(c).drop_last() =~= digits);
    let empty = Seq::<char>::empty();
    assert(parts(empty)[0] == empty);
}

} // verus!
