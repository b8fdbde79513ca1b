//! What a driver accepts, selects and says.
use bytes::Bytes;
use vstd::prelude::*;
use crate::bytes_spec::content;
use crate::driver::{
    backend_kind_from_value, check_whole_file_len, BackendKind, DriverError, DriverInner,
    ErrorKind, IoDriver, PsyncDriver, WholeFileRead, WholeFileWrite,
};
use crate::text::{decimal, lower_char, lowered};

verus! {

/// Whether a character is a small letter, or the same letter as a capital.
pub open spec fn is_letter(c: char, small: char, capital: char) -> bool {
    c == small || c == capital
}

/// Whether a text is `auto`, in small letters or capitals.
pub open spec fn says_auto(value: Seq<char>) -> bool {
    &&& value.len() == 4
    &&& is_letter(value[0], 'a', 'A')
    &&& is_letter(value[1], 'u', 'U')
    &&& is_letter(value[2], 't', 'T')
    &&& is_letter(value[3], 'o', 'O')
}

/// Whether a text is `psync`, in small letters or capitals.
pub open spec fn says_psync(value: Seq<char>) -> bool {
    &&& value.len() == 5
    &&& is_letter(value[0], 'p', 'P')
    &&& is_letter(value[1], 's', 'S')
    &&& is_letter(value[2], 'y', 'Y')
    &&& is_letter(value[3], 'n', 'N')
    &&& is_letter(value[4], 'c', 'C')
}

proof fn lowered_letters(value: Seq<char>)
    ensures
        lowered(value) == "auto"@ <==> says_auto(value),
        lowered(value) == "psync"@ <==> says_psync(value),
        lowered(value) == ""@ <==> value.len() == 0,
{
    reveal_strlit("auto");
    reveal_strlit("psync");
    reveal_strlit("");
    let name = lowered(value);
    assert(forall|i: int| 0 <= i < value.len() ==> name[i] == lower_char(value[i]));
    if says_auto(value) {
        assert(name =~= "auto"@);
    }
    if says_psync(value) {
        assert(name =~= "psync"@);
    }
    if value.len() == 0 {
        assert(name =~= ""@);
    }
    if name == ""@ {
        assert(name.len() == 0);
    }
    if name == "auto"@ {
        assert(name.len() == 4 && name[0] == 'a' && name[1] == 'u' && name[2] == 't' && name[3]
            == 'o');
    }
    if name == "psync"@ {
        assert(name.len() == 5 && name[0] == 'p' && name[1] == 's' && name[2] == 'y' && name[3]
            == 'n' && name[4] == 'c');
    }
}

/// Whether `message` is `before`, then `value` with its capital letters of ASCII as
/// small ones, then `after`.
pub open spec fn quotes(
    message: Seq<char>,
    before: Seq<char>,
    value: Seq<char>,
    after: Seq<char>,
) -> bool {
    &&& message.len() == before.len() + value.len() + after.len()
    &&& message.take(before.len() as int) == before
    &&& message.skip((before.len() + value.len()) as int) == after
    &&& forall|i: int|
        0 <= i < value.len() ==> {
            let c = #[trigger] value[i];
            let shown = message[before.len() + i];
            if 'A' <= c && c <= 'Z' {
                shown as int == c as int + 32
            } else {
                shown == c
            }
        }
}

proof fn rejection_quotes(value: Seq<char>)
    ensures
        quotes(
            crate::driver::unsupported_message(value),
            "unsupported LORE_IO_BACKEND \""@,
            value,
            "\" (supported: auto, psync)"@,
        ),
{
    let before = "unsupported LORE_IO_BACKEND \""@;
    let after = "\" (supported: auto, psync)"@;
    let message = crate::driver::unsupported_message(value);
    assert(message =~= before + lowered(value) + after);
    assert(message.take(before.len() as int) =~= before);
    assert(message.skip((before.len() + value.len()) as int) =~= after);
    assert forall|i: int| 0 <= i < value.len() implies {
        let c = #[trigger] value[i];
        let shown = message[before.len() + i];
        if 'A' <= c && c <= 'Z' {
            shown as int == c as int + 32
        } else {
            shown == c
        }
    } by {
        assert(message[before.len() + i] == lowered(value)[i]);
    }
}

/// `auto`, `psync` and nothing at all are the values that name a backend, whatever
/// their case. Every other value is an invalid input, and the message quotes it and
/// names what is supported.
pub proof fn only_the_supported_values_name_a_backend(
    value: &str,
    r: Result<BackendKind, DriverError>,
    kind: ErrorKind,
    message: &str,
)
    requires
        call_ensures(backend_kind_from_value, (value,), r),
        r matches Err(e) ==> call_ensures(DriverError::kind, (&e,), kind) && call_ensures(
            DriverError::message,
            (&e,),
            message,
        ),
    ensures
        r == Ok::<BackendKind, DriverError>(BackendKind::Auto) <==> (value@.len() == 0 || says_auto(
            value@,
        )),
        r == Ok::<BackendKind, DriverError>(BackendKind::Psync) <==> says_psync(value@),
        r is Err <==> value@.len() > 0 && !says_auto(value@) && !says_psync(value@),
        r is Err ==> kind == ErrorKind::InvalidInput && quotes(
            message@,
            "unsupported LORE_IO_BACKEND \""@,
            value@,
            "\" (supported: auto, psync)"@,
        ),
{
    lowered_letters(value@);
    rejection_quotes(value@);
}

/// A driver is refused exactly for a value that is set and names no backend, and every
/// driver there is dispatches to the one backend.
pub proof fn a_driver_honors_the_environment(
    value: Option<&str>,
    r: Result<IoDriver, DriverError>,
    kind: ErrorKind,
    message: &str,
)
    requires
        call_ensures(IoDriver::from_env, (value,), r),
        r matches Err(e) ==> call_ensures(DriverError::kind, (&e,), kind) && call_ensures(
            DriverError::message,
            (&e,),
            message,
        ),
    ensures
        r is Err <==> (value matches Some(value) && value@.len() > 0 && !says_auto(value@)
            && !says_psync(value@)),
        r matches Ok(driver) ==> driver@ == DriverInner::Psync(PsyncDriver),
        r is Err ==> kind == ErrorKind::InvalidInput && quotes(
            message@,
            "unsupported LORE_IO_BACKEND \""@,
            value->Some_0@,
            "\" (supported: auto, psync)"@,
        ),
{
    if let Some(value) = value {
        lowered_letters(value@);
        rejection_quotes(value@);
    }
}

/// The driver of a process is there whatever the environment holds, and comes with an
/// error exactly where a driver from the environment is refused: with the same message.
pub proof fn the_global_driver_is_always_there(
    value: Option<&str>,
    refused: Result<IoDriver, DriverError>,
    r: (IoDriver, Option<DriverError>),
)
    requires
        call_ensures(IoDriver::from_env, (value,), refused),
        call_ensures(IoDriver::global, (value,), r),
    ensures
        r.0@ == DriverInner::Psync(PsyncDriver),
        r.1 is Some <==> refused is Err,
        refused matches Err(e) ==> r.1->Some_0.spec_message() == e.spec_message()
            && r.1->Some_0.spec_kind() == e.spec_kind(),
{
}

/// Every kind gives a driver on the one backend, which has a name.
pub proof fn every_driver_is_named(
    kind: BackendKind,
    r: Result<IoDriver, DriverError>,
    name: &'static str,
    backend: DriverInner,
)
    requires
        call_ensures(IoDriver::new, (kind,), r),
        r matches Ok(driver) ==> call_ensures(IoDriver::backend_name, (&driver,), name)
            && call_ensures(IoDriver::backend, (&driver,), backend),
    ensures
        r is Ok,
        name@ == "psync"@,
        backend == DriverInner::Psync(PsyncDriver),
{
}

proof fn limit_in_decimal()
    ensures
        decimal(8388608) == "8388608"@,
{
    reveal_strlit("8388608");
    reveal_with_fuel(decimal, 8);
    assert(decimal(8388608) =~= "8388608"@);
}

proof fn over_limit_says(len: nat)
    ensures
        crate::driver::over_limit_message(len) == decimal(len)
            + " bytes exceeds the 8388608 byte whole-file limit; open the file and use read_exact_at or write_all_at"@,
{
    limit_in_decimal();
    reveal_strlit(" bytes exceeds the ");
    reveal_strlit("8388608");
    reveal_strlit(
        " byte whole-file limit; open the file and use read_exact_at or write_all_at",
    );
    reveal_strlit(
        " bytes exceeds the 8388608 byte whole-file limit; open the file and use read_exact_at or write_all_at",
    );
    assert(" bytes exceeds the "@ + "8388608"@
        + " byte whole-file limit; open the file and use read_exact_at or write_all_at"@
        =~= " bytes exceeds the 8388608 byte whole-file limit; open the file and use read_exact_at or write_all_at"@);
    assert(crate::driver::over_limit_message(len) =~= decimal(len) + (" bytes exceeds the "@
        + "8388608"@
        + " byte whole-file limit; open the file and use read_exact_at or write_all_at"@));
}

/// A length is refused exactly where it is more than eight times 1024 times 1024. The
/// message says which length was refused and what to do instead.
pub proof fn lengths_are_refused_above_eight_mebibytes(
    len: usize,
    r: Result<(), DriverError>,
    kind: ErrorKind,
    message: &str,
)
    requires
        call_ensures(check_whole_file_len, (len,), r),
        r matches Err(e) ==> call_ensures(DriverError::kind, (&e,), kind) && call_ensures(
            DriverError::message,
            (&e,),
            message,
        ),
    ensures
        r is Err <==> len > 8388608,
        r is Err ==> kind == ErrorKind::InvalidInput && message@ == decimal(len as nat)
            + " bytes exceeds the 8388608 byte whole-file limit; open the file and use read_exact_at or write_all_at"@,
{
    over_limit_says(len as nat);
}

/// A whole file is read exactly where its length is accepted, to that length and on the
/// driver's own backend.
pub proof fn whole_file_is_read_to_its_length(
    driver: &IoDriver,
    len: u64,
    r: Result<WholeFileRead, DriverError>,
    kind: ErrorKind,
    message: &str,
)
    requires
        call_ensures(IoDriver::read_file_bytes, (driver, len), r),
        r matches Err(e) ==> call_ensures(DriverError::kind, (&e,), kind) && call_ensures(
            DriverError::message,
            (&e,),
            message,
        ),
    ensures
        r is Err <==> len > 8388608,
        r matches Ok(read) ==> read.len == len && read.backend == driver@,
        r is Err ==> kind == ErrorKind::InvalidInput && message@ == decimal(len as nat)
            + " bytes exceeds the 8388608 byte whole-file limit; open the file and use read_exact_at or write_all_at"@,
{
    over_limit_says(len as nat);
}

/// A whole file is written exactly where the length of its data is accepted: the very
/// data that was passed, durably where that was asked, on the driver's own backend.
pub proof fn whole_file_is_written_as_passed(
    driver: &IoDriver,
    data: Bytes,
    durable: bool,
    r: Result<WholeFileWrite, DriverError>,
    kind: ErrorKind,
    message: &str,
)
    requires
        call_ensures(IoDriver::write_file_bytes, (driver, data, durable), r),
        r matches Err(e) ==> call_ensures(DriverError::kind, (&e,), kind) && call_ensures(
            DriverError::message,
            (&e,),
            message,
        ),
    ensures
        r is Err <==> content(data).len() > 8388608,
        r matches Ok(write) ==> {
            &&& write.data == data
            &&& write.durable == durable
            &&& write.backend == driver@
        },
        r is Err ==> kind == ErrorKind::InvalidInput && message@ == decimal(content(data).len())
            + " bytes exceeds the 8388608 byte whole-file limit; open the file and use read_exact_at or write_all_at"@,
{
    over_limit_says(content(data).len());
}

/// Clones of a driver share its backend.
pub proof fn clones_share_the_backend(driver: &IoDriver, clone: IoDriver)
    requires
        call_ensures(<IoDriver as Clone>::clone, (driver,), clone),
    ensures
        clone@ == driver@,
{
}

} // verus!
