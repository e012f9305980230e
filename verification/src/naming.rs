//! Numbers written out in decimal, and the names that are made of them.

use vstd::prelude::*;

verus! {

/// The character of one decimal digit.
pub open spec fn digit(d: nat) -> char {
    if d == 0 {
        '0'
    } else if d == 1 {
        '1'
    } else if d == 2 {
        '2'
    } else if d == 3 {
        '3'
    } else if d == 4 {
        '4'
    } else if d == 5 {
        '5'
    } else if d == 6 {
        '6'
    } else if d == 7 {
        '7'
    } else if d == 8 {
        '8'
    } else {
        '9'
    }
}

/// A number in decimal, without leading zeros.
pub open spec fn decimal(n: nat) -> Seq<char>
    decreases n,
{
    if n < 10 {
        seq![digit(n)]
    } else {
        decimal(n / 10).push(digit(n % 10))
    }
}

/// A number in decimal, with zeros in front where it has fewer than four digits.
pub open spec fn four_digits(n: nat) -> Seq<char> {
    if n < 10 {
        seq!['0', '0', '0'] + decimal(n)
    } else if n < 100 {
        seq!['0', '0'] + decimal(n)
    } else if n < 1000 {
        seq!['0'] + decimal(n)
    } else {
        decimal(n)
    }
}

/// The name of the event `id`.
pub open spec fn event_name_of(id: usize) -> Seq<char> {
    "event_"@ + four_digits(id as nat)
}

/// Where the block `id` of the event named `event_name` is kept.
pub open spec fn block_path_of(event_name: Seq<char>, id: usize) -> Seq<char> {
    "./public/assets/"@ + event_name + "/block_"@ + four_digits(id as nat) + ".json"@
}

/// The address of the audio of an event: that of the event `event_id`, or
/// of the test event where none is chosen.
pub open spec fn audio_source_of(event_id: Option<usize>) -> Seq<char> {
    "http://localhost:8080/_api/public/assets/"@ + match event_id {
        Some(id) => event_name_of(id),
        None => "test_event"@,
    } + "/__event_audio.wav"@
}

/// What the relay says of the choice of the event `id`.
pub open spec fn selection_text_of(id: usize) -> Seq<char> {
    "Selected event "@ + decimal(id as nat)
}

fn digit_text(d: usize) -> (text: &'static str)
    requires
        d < 10,
    ensures
        text@ == seq![digit(d as nat)],
{
    proof {
        reveal_strlit("0");
        reveal_strlit("1");
        reveal_strlit("2");
        reveal_strlit("3");
        reveal_strlit("4");
        reveal_strlit("5");
        reveal_strlit("6");
        reveal_strlit("7");
        reveal_strlit("8");
        reveal_strlit("9");
    }
    let text = if d == 0 {
        "0"
    } else if d == 1 {
        "1"
    } else if d == 2 {
        "2"
    } else if d == 3 {
        "3"
    } else if d == 4 {
        "4"
    } else if d == 5 {
        "5"
    } else if d == 6 {
        "6"
    } else if d == 7 {
        "7"
    } else if d == 8 {
        "8"
    } else {
        "9"
    };
    assert(text@ =~= seq![digit(d as nat)]);
    text
}

/// Writes `n` in decimal behind what `out` holds.
pub fn append_decimal(out: &mut String, n: usize)
    ensures
        final(out)@ == old(out)@ + decimal(n as nat),
    decreases n,
{
    if n >= 10 {
        append_decimal(out, n / 10);
    }
    out.append(digit_text(n % 10));
    proof {
        if n >= 10 {
            assert(old(out)@ + decimal((n / 10) as nat) + seq![digit((n % 10) as nat)] =~= old(
                out,
            )@ + decimal(n as nat));
        } else {
            assert(decimal(n as nat) =~= seq![digit(n as nat)]);
        }
    }
}

/// Writes `n` in decimal behind what `out` holds, with zeros in front where
/// it has fewer than four digits.
pub fn append_four_digits(out: &mut String, n: usize)
    ensures
        final(out)@ == old(out)@ + four_digits(n as nat),
{
    proof {
        reveal_strlit("000");
        reveal_strlit("00");
        reveal_strlit("0");
    }
    if n < 10 {
        out.append("000");
        assert(out@ =~= old(out)@ + seq!['0', '0', '0']);
    } else if n < 100 {
        out.append("00");
        assert(out@ =~= old(out)@ + seq!['0', '0']);
    } else if n < 1000 {
        out.append("0");
        assert(out@ =~= old(out)@ + seq!['0']);
    }
    append_decimal(out, n);
    assert(out@ =~= old(out)@ + four_digits(n as nat));
}

/// The name of the event `id`: `event_` and the number in four digits or more.
pub fn event_name(id: usize) -> (name: String)
    ensures
        name@ == event_name_of(id),
{
    let mut name = String::from_str("event_");
    append_four_digits(&mut name, id);
    name
}

/// The path of the file that holds the block `id` of the event named `event_name`.
pub fn block_path(event_name: &str, id: usize) -> (path: String)
    ensures
        path@ == block_path_of(event_name@, id),
{
    let mut path = String::from_str("./public/assets/");
    path.append(event_name);
    path.append("/block_");
    append_four_digits(&mut path, id);
    path.append(".json");
    path
}

/// The text with which the relay answers the choice of the event `id`.
pub fn selection_text(id: usize) -> (text: String)
    ensures
        text@ == selection_text_of(id),
{
    let mut text = String::from_str("Selected event ");
    append_decimal(&mut text, id);
    text
}

/// The address from which the audio of the chosen event is played.
pub fn audio_source(event_id: Option<usize>) -> (address: String)
    ensures
        address@ == audio_source_of(event_id),
{
    let mut address = String::from_str("http://localhost:8080/_api/public/assets/");
    match event_id {
        Some(id) => {
            let name = event_name(id);
            address.append(name.as_str());
        },
        None => {
            address.append("test_event");
        },
    }
    address.append("/__event_audio.wav");
    address
}

} // verus!
