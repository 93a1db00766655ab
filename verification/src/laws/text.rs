//! The laws of text, of the names and numbers of formats, and of the tracing set-up.

use crate::messages::AudioFormat;
use crate::otel::{init_tracer, Exporter, TracerPlan};
use crate::text::{
    characters, contains, decimal_string, push_decimal, split_first, to_ascii_lowercase,
};
use vstd::prelude::*;

verus! {

/// The characters are decimal digits, and do not start with a needless zero.
pub open spec fn is_number(digits: Seq<char>) -> bool {
    &&& digits.len() > 0
    &&& forall|i: int| 0 <= i < digits.len() ==> '0' <= #[trigger] digits[i] <= '9'
    &&& digits.len() > 1 ==> digits[0] != '0'
}

/// The value of a row of decimal digits.
pub open spec fn value_of(digits: Seq<char>) -> int
    decreases digits.len(),
{
    if digits.len() == 0 {
        0
    } else {
        10 * value_of(digits.drop_last()) + (digits.last() as int - '0' as int)
    }
}

/// Decimal notation is made of digits, and read back gives the number.
proof fn lemma_decimal_nat(n: nat)
    ensures
        is_number(crate::text::decimal_nat(n)),
        value_of(crate::text::decimal_nat(n)) == n,
        n > 0 ==> crate::text::decimal_nat(n)[0] != '0',
    decreases n,
{
    let digits = crate::text::decimal_nat(n);
    if n < 10 {
        assert(digits.drop_last() =~= Seq::empty());
        assert(value_of(digits.drop_last()) == 0);
    } else {
        lemma_decimal_nat(n / 10);
        assert(digits.drop_last() =~= crate::text::decimal_nat(n / 10));
    }
}

/// A number is written in decimal digits, without needless zeros and with a minus where it
/// is negative, so that reading the digits gives the number.
pub proof fn law_decimal_reads_back(n: i64, res: String)
    requires
        call_ensures(decimal_string, (n,), res),
    ensures
        n >= 0 ==> is_number(res@) && value_of(res@) == n,
        n < 0 ==> res@.len() > 0 && res@[0] == '-' && is_number(res@.drop_first()) && value_of(
            res@.drop_first(),
        ) == -n,
{
    lemma_decimal_text(n as int);
}

/// The text of a number, as the messages and addresses have it, reads back as the number.
pub proof fn lemma_decimal_text(n: int)
    ensures
        n >= 0 ==> is_number(crate::text::decimal(n)) && value_of(crate::text::decimal(n)) == n,
        n < 0 ==> crate::text::decimal(n).len() > 0 && crate::text::decimal(n)[0] == '-'
            && is_number(crate::text::decimal(n).drop_first()) && value_of(
            crate::text::decimal(n).drop_first(),
        ) == -n,
{
    if n >= 0 {
        lemma_decimal_nat(n as nat);
    } else {
        lemma_decimal_nat((-n) as nat);
        assert(crate::text::decimal(n).drop_first() =~= crate::text::decimal_nat((-n) as nat));
    }
}

/// Digits are added behind what there was.
pub proof fn law_decimal_added(out: &mut String, n: u64)
    requires
        call_ensures(push_decimal, (out, n), ()),
    ensures
        final(out)@.len() > old(out)@.len(),
        final(out)@.take(old(out)@.len() as int) == old(out)@,
        is_number(final(out)@.skip(old(out)@.len() as int)),
        value_of(final(out)@.skip(old(out)@.len() as int)) == n,
{
    lemma_decimal_nat(n as nat);
    assert(final(out)@.take(old(out)@.len() as int) =~= old(out)@);
    assert(final(out)@.skip(old(out)@.len() as int) =~= crate::text::decimal_nat(n as nat));
}

/// The characters of a text are all of it, in order.
pub proof fn law_characters(s: &str, res: Vec<char>)
    requires
        call_ensures(characters, (s,), res),
    ensures
        res@.len() == s@.len(),
        forall|i: int| 0 <= i < s@.len() ==> #[trigger] res@[i] == s@[i],
{
}

/// A text contains another where that stands in it character for character.
pub open spec fn stands_at(hay: Seq<char>, needle: Seq<char>, at: int) -> bool {
    &&& 0 <= at <= hay.len() - needle.len()
    &&& forall|j: int| 0 <= j < needle.len() ==> hay[at + j] == #[trigger] needle[j]
}

/// A text is found if, and only if, it stands somewhere.
pub proof fn law_contains(hay: &str, needle: &str, res: bool)
    requires
        call_ensures(contains, (hay, needle), res),
    ensures
        res <==> exists|at: int| stands_at(hay@, needle@, at),
{
    if res {
        let at = choose|i: int|
            0 <= i <= hay@.len() - needle@.len() && #[trigger] hay@.subrange(i, i + needle@.len())
                == needle@;
        let found = hay@.subrange(at, at + needle@.len());
        assert forall|j: int| 0 <= j < needle@.len() implies hay@[at + j]
            == #[trigger] needle@[j] by {
            assert(found[j] == hay@[at + j]);
        }
        assert(stands_at(hay@, needle@, at));
    }
    if exists|at: int| stands_at(hay@, needle@, at) {
        let at = choose|at: int| stands_at(hay@, needle@, at);
        assert(hay@.subrange(at, at + needle@.len()) =~= needle@);
    }
}

/// A text is split at its first separator: what stands before it is the one part, what
/// stands behind it the other. Without a separator the first part is all of it.
pub proof fn law_split(s: &str, sep: char, res: (String, String))
    requires
        call_ensures(split_first, (s, sep), res),
    ensures
        forall|i: int| 0 <= i < res.0@.len() ==> #[trigger] res.0@[i] != sep && res.0@[i] == s@[i],
        res.0@.len() < s@.len() ==> {
            &&& s@[res.0@.len() as int] == sep
            &&& s@.len() == res.0@.len() + 1 + res.1@.len()
            &&& forall|i: int|
                0 <= i < res.1@.len() ==> #[trigger] res.1@[i] == s@[res.0@.len() + 1 + i]
        },
        res.0@.len() >= s@.len() ==> res.0@ == s@ && res.1@.len() == 0,
{
    let key = res.0@;
    assert forall|i: int| 0 <= i < key.len() implies #[trigger] key[i] != sep && key[i] == s@[i] by {
        assert(key.contains(key[i]));
    }
}

/// Lower case changes the letters `A` to `Z` alone, each to the one that goes with it, 32
/// places on, and leaves everything at its place.
pub proof fn law_lower_case(s: &str, res: String)
    requires
        call_ensures(to_ascii_lowercase, (s,), res),
    ensures
        res@.len() == s@.len(),
        forall|i: int|
            0 <= i < s@.len() ==> if 'A' <= s@[i] <= 'Z' {
                #[trigger] res@[i] as int == s@[i] as int + 32
            } else {
                res@[i] == s@[i]
            },
        forall|i: int| 0 <= i < res@.len() ==> !('A' <= #[trigger] res@[i] <= 'Z'),
{
    assert forall|i: int| 0 <= i < s@.len() implies res@[i] == crate::text::ascii_lower(s@[i]) by {}
    assert forall|i: int| 0 <= i < s@.len() implies if 'A' <= s@[i] <= 'Z' {
        #[trigger] res@[i] as int == s@[i] as int + 32
    } else {
        res@[i] == s@[i]
    } by {
        assert(res@[i] == crate::text::ascii_lower(s@[i]));
    }
}

/// No format, MP3, M4A and mu-law have the numbers from zero to three; no other number
/// stands for a format, and a number read back gives the format.
pub proof fn law_format_numbers(
    format: AudioFormat,
    number: i32,
    other: i32,
    res: Option<AudioFormat>,
    back: Option<AudioFormat>,
)
    requires
        call_ensures(AudioFormat::number, (format,), number),
        call_ensures(AudioFormat::from_number, (number,), back),
        call_ensures(AudioFormat::from_number, (other,), res),
    ensures
        back == Some(format),
        format is Unspecified <==> number == 0,
        format is Mp3 <==> number == 1,
        format is M4a <==> number == 2,
        format is Ulaw <==> number == 3,
        res is Some <==> 0 <= other <= 3,
        res == Some(format) <==> other == number,
{
}

/// The three audio formats go by their names in capitals, and by no other name.
pub proof fn law_format_names(name: &str, format: AudioFormat)
    requires
        call_ensures(AudioFormat::from_name, (name,), format),
    ensures
        format is Mp3 <==> name@ == seq!['M', 'P', '3'],
        format is M4a <==> name@ == seq!['M', '4', 'A'],
        format is Ulaw <==> name@ == seq!['U', 'L', 'A', 'W'],
{
    reveal_strlit("MP3");
    reveal_strlit("M4A");
    reveal_strlit("ULAW");
    let mp3 = seq!['M', 'P', '3'];
    let m4a = seq!['M', '4', 'A'];
    let ulaw = seq!['U', 'L', 'A', 'W'];
    assert("MP3"@ =~= mp3);
    assert("M4A"@ =~= m4a);
    assert("ULAW"@ =~= ulaw);
    assert(mp3[1] != m4a[1]);
    assert(mp3.len() != ulaw.len());
    assert(m4a.len() != ulaw.len());
}

/// Traces go to the collector that is named; the name `stdout` stands for the standard
/// output, and no name, or an empty one, for nothing. They bear the name given, or else
/// that of the service.
pub proof fn law_tracer(
    service_name: Option<String>,
    endpoint: Option<String>,
    res: TracerPlan,
)
    requires
        call_ensures(init_tracer, (service_name, endpoint), res),
    ensures
        service_name is Some ==> res.service_name@ == (service_name->0)@,
        service_name is None ==> res.service_name@ == "audio-convert-rs"@,
        res.exporter is Nothing <==> endpoint is None || (endpoint->0)@.len() == 0,
        res.exporter is Stdout <==> endpoint is Some && (endpoint->0)@ == seq![
            's',
            't',
            'd',
            'o',
            'u',
            't',
        ],
        (res.exporter matches Exporter::Endpoint(address) ==> endpoint is Some && address@ == (
        endpoint->0)@ && res.info@ == "OTLP endpoint: "@ + address@),
        res.exporter is Nothing ==> res.info@ == "No OTLP endpoint"@,
        res.exporter is Stdout ==> res.info@ == "OTLP stdout exporter"@,
{
    reveal_strlit("");
    reveal_strlit("stdout");
    let stdout = seq!['s', 't', 'd', 'o', 'u', 't'];
    assert("stdout"@ =~= stdout);
    assert(""@ =~= Seq::empty());
    if endpoint is Some && (endpoint->0)@.len() == 0 {
        assert((endpoint->0)@ =~= ""@);
    }
    assert(""@.len() != stdout.len());
}

} // verus!
