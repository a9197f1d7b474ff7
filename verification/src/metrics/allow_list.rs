//! The allow-list of custom commands and the validation of a configuration.

use vstd::prelude::*;

use crate::metrics::byte_order::{compare_bytes, compare_with_upper, Relation};
use crate::metrics::errors::RequestMetricsConfigurationError;

verus! {

/// The largest sampling percentage.
pub const MAX_SAMPLE_PERCENTAGE: u32 = 100;

/// The largest capacity of the sample buffer.
pub const MAX_BUFFER_CAPACITY: usize = 1_000_000;

/// The most names that an allow-list can hold, as they are given.
pub const MAX_ALLOWED_CUSTOM_COMMANDS: usize = 64;

/// The longest name that an allow-list can hold.
pub const MAX_CUSTOM_COMMAND_LENGTH: usize = 64;

/// Whether a byte is an upper-case ASCII letter.
pub open spec fn is_upper_letter(byte: u8) -> bool {
    65 <= byte <= 90
}

/// Whether a byte can stand in a listed name: an upper-case letter, a digit, `_`, `.` or `-`.
pub open spec fn is_command_byte(byte: u8) -> bool {
    is_upper_letter(byte) || 48 <= byte <= 57 || byte == 95 || byte == 46 || byte == 45
}

/// Whether a name can be listed: 1 to 64 bytes, an upper-case letter first.
pub open spec fn valid_custom_command(command: Seq<u8>) -> bool {
    &&& 1 <= command.len() <= MAX_CUSTOM_COMMAND_LENGTH
    &&& is_upper_letter(command[0])
    &&& forall|i: int| 0 <= i < command.len() ==> is_command_byte(#[trigger] command[i])
}

/// The bytes of each name.
pub open spec fn slices_view(commands: Seq<&[u8]>) -> Seq<Seq<u8>> {
    Seq::new(commands.len(), |i: int| commands[i]@)
}

/// The bytes of each name.
pub open spec fn vecs_view(commands: Seq<Vec<u8>>) -> Seq<Seq<u8>> {
    Seq::new(commands.len(), |i: int| commands[i]@)
}

/// The first position, from `start` on, of a name that cannot be listed; the number of names
/// where there is none.
pub open spec fn first_invalid(commands: Seq<Seq<u8>>, start: int) -> int
    decreases commands.len() - start,
{
    if start < 0 || start >= commands.len() || !valid_custom_command(commands[start]) {
        start
    } else {
        first_invalid(commands, start + 1)
    }
}

/// What is wrong with a configuration, looked at in this order: the percentage, the capacity, the
/// number of names, the names from the first on.
pub open spec fn configuration_error(
    sample_percentage: u32,
    capacity: usize,
    commands: Seq<Seq<u8>>,
) -> Option<RequestMetricsConfigurationError> {
    if sample_percentage > MAX_SAMPLE_PERCENTAGE {
        Some(
            RequestMetricsConfigurationError::InvalidSamplePercentage {
                percentage: sample_percentage,
            },
        )
    } else if capacity < 1 || capacity > MAX_BUFFER_CAPACITY {
        Some(RequestMetricsConfigurationError::InvalidCapacity { capacity })
    } else if commands.len() > MAX_ALLOWED_CUSTOM_COMMANDS {
        Some(
            RequestMetricsConfigurationError::TooManyAllowedCustomCommands {
                count: commands.len() as usize,
            },
        )
    } else if first_invalid(commands, 0) < commands.len() {
        Some(
            RequestMetricsConfigurationError::InvalidAllowedCustomCommand {
                index: first_invalid(commands, 0) as usize,
            },
        )
    } else {
        None
    }
}

/// Whether `list` is the allow-list made of `commands`: the same names, each once, in ascending
/// order.
pub open spec fn is_allow_list_of(list: Seq<Seq<u8>>, commands: Seq<Seq<u8>>) -> bool {
    &&& crate::metrics::byte_order::strictly_ascending(list)
    &&& forall|name: Seq<u8>| list.contains(name) <==> commands.contains(name)
}

/// Neither the order of the given names nor their repetition shows in the allow-list.
pub proof fn law_allow_list_is_canonical(
    first: Seq<Seq<u8>>,
    second: Seq<Seq<u8>>,
    first_commands: Seq<Seq<u8>>,
    second_commands: Seq<Seq<u8>>,
)
    requires
        is_allow_list_of(first, first_commands),
        is_allow_list_of(second, second_commands),
        forall|name: Seq<u8>| first_commands.contains(name) <==> second_commands.contains(name),
    ensures
        first == second,
{
    crate::metrics::byte_order::lemma_ascending_list_is_unique(first, second);
}

/// Refuses a percentage above 100.
pub fn validate_sample_percentage(sample_percentage: u32) -> (result: Result<
    (),
    RequestMetricsConfigurationError,
>)
    ensures
        result == (if sample_percentage > MAX_SAMPLE_PERCENTAGE {
            Err::<(), _>(
                RequestMetricsConfigurationError::InvalidSamplePercentage {
                    percentage: sample_percentage,
                },
            )
        } else {
            Ok::<(), RequestMetricsConfigurationError>(())
        }),
{
    if sample_percentage > MAX_SAMPLE_PERCENTAGE {
        return Err(
            RequestMetricsConfigurationError::InvalidSamplePercentage {
                percentage: sample_percentage,
            },
        );
    }
    Ok(())
}

/// Whether a name can be listed.
fn is_valid_custom_command(command: &[u8]) -> (valid: bool)
    ensures
        valid == valid_custom_command(command@),
{
    if command.len() == 0 || command.len() > MAX_CUSTOM_COMMAND_LENGTH {
        return false;
    }
    if command[0] < 65 || command[0] > 90 {
        return false;
    }
    let mut i: usize = 0;
    while i < command.len()
        invariant
            i <= command@.len(),
            forall|j: int| 0 <= j < i ==> is_command_byte(#[trigger] command@[j]),
        decreases command@.len() - i,
    {
        let byte = command[i];
        let letter = 65 <= byte && byte <= 90;
        let number = 48 <= byte && byte <= 57;
        if !letter && !number && byte != 95 && byte != 46 && byte != 45 {
            assert(!is_command_byte(command@[i as int]));
            return false;
        }
        i = i + 1;
    }
    true
}

proof fn lemma_first_invalid(commands: Seq<Seq<u8>>, start: int, end: int)
    requires
        0 <= start <= end <= commands.len(),
        forall|j: int| start <= j < end ==> valid_custom_command(#[trigger] commands[j]),
    ensures
        first_invalid(commands, start) == first_invalid(commands, end),
    decreases end - start,
{
    if start < end {
        lemma_first_invalid(commands, start + 1, end);
    }
}

/// Where every name before the end of the list is valid, the search finds none that is not.
pub proof fn lemma_all_valid(commands: Seq<Seq<u8>>, start: int)
    requires
        0 <= start <= commands.len(),
        first_invalid(commands, start) >= commands.len(),
    ensures
        first_invalid(commands, start) == commands.len(),
        forall|j: int| start <= j < commands.len() ==> valid_custom_command(#[trigger] commands[j]),
    decreases commands.len() - start,
{
    if start < commands.len() {
        lemma_all_valid(commands, start + 1);
    }
}

/// The names of an allow-list made of valid names are valid.
pub proof fn lemma_allow_list_is_valid(list: Seq<Seq<u8>>, commands: Seq<Seq<u8>>)
    requires
        is_allow_list_of(list, commands),
        first_invalid(commands, 0) >= commands.len(),
    ensures
        forall|i: int| 0 <= i < list.len() ==> valid_custom_command(#[trigger] list[i]),
{
    lemma_all_valid(commands, 0);
    assert forall|i: int| 0 <= i < list.len() implies valid_custom_command(#[trigger] list[i]) by {
        assert(list.contains(list[i]));
        assert(commands.contains(list[i]));
    }
}

/// Puts a name into an ascending list, where it is not there yet.
fn insert_command(list: &mut Vec<Vec<u8>>, command: Vec<u8>)
    requires
        crate::metrics::byte_order::strictly_ascending(vecs_view(old(list)@)),
    ensures
        crate::metrics::byte_order::strictly_ascending(vecs_view(final(list)@)),
        forall|name: Seq<u8>|
            vecs_view(final(list)@).contains(name) <==> vecs_view(old(list)@).contains(name)
                || name == command@,
        final(list)@.len() <= old(list)@.len() + 1,
{
    let ghost before = vecs_view(list@);
    let ghost name = command@;
    let mut i: usize = 0;
    while i < list.len()
        invariant
            i <= list@.len(),
            list@ == old(list)@,
            vecs_view(list@) == before,
            command@ == name,
            crate::metrics::byte_order::strictly_ascending(before),
            forall|j: int| 0 <= j < i ==> crate::metrics::byte_order::comes_before(#[trigger] before[j], name),
        decreases list@.len() - i,
    {
        proof {
            assert(before[i as int] == list@[i as int]@);
        }
        match compare_bytes(list[i].as_slice(), command.as_slice()) {
            Relation::Before => {
                i = i + 1;
            },
            Relation::Same => {
                assert(before.contains(name));
                return ;
            },
            Relation::After => {
                proof {
                    crate::metrics::byte_order::lemma_total(before[i as int], name);
                    lemma_insert_keeps_order(before, i as int, name);
                }
                list.insert(i, command);
                proof {
                    assert(vecs_view(list@) =~= before.insert(i as int, name));
                }
                return ;
            },
        }
    }
    proof {
        lemma_insert_keeps_order(before, i as int, name);
    }
    list.push(command);
    proof {
        assert(vecs_view(list@) =~= before.insert(i as int, name));
        assert forall|other: Seq<u8>|
            vecs_view(list@).contains(other) <==> before.contains(other) || other == name by {}
    }
}

proof fn lemma_insert_keeps_order(list: Seq<Seq<u8>>, at: int, name: Seq<u8>)
    requires
        0 <= at <= list.len(),
        crate::metrics::byte_order::strictly_ascending(list),
        forall|j: int| 0 <= j < at ==> crate::metrics::byte_order::comes_before(#[trigger] list[j], name),
        at < list.len() ==> crate::metrics::byte_order::comes_before(name, list[at]),
    ensures
        crate::metrics::byte_order::strictly_ascending(list.insert(at, name)),
        forall|other: Seq<u8>|
            list.insert(at, name).contains(other) <==> list.contains(other) || other == name,
{
    let longer = list.insert(at, name);
    assert forall|i: int, j: int| 0 <= i < j < longer.len() implies crate::metrics::byte_order::comes_before(
        #[trigger] longer[i],
        #[trigger] longer[j],
    ) by {
        if i == at && j > at + 1 {
            crate::metrics::byte_order::lemma_transitive(name, list[at], list[j - 1]);
        } else if i == at {
            assert(longer[j] == list[at]);
        } else if j == at {
            assert(longer[i] == list[i]);
        } else {
            let a = if i < at { i } else { i - 1 };
            let b = if j < at { j } else { j - 1 };
            assert(longer[i] == list[a]);
            assert(longer[j] == list[b]);
        }
    }
    assert forall|other: Seq<u8>|
        longer.contains(other) <==> list.contains(other) || other == name by {
        if longer.contains(other) {
            let k = choose|k: int| 0 <= k < longer.len() && longer[k] == other;
            if k < at {
                assert(list[k] == other);
            } else if k > at {
                assert(list[k - 1] == other);
            }
        }
        if list.contains(other) {
            let k = choose|k: int| 0 <= k < list.len() && list[k] == other;
            if k < at {
                assert(longer[k] == other);
            } else {
                assert(longer[k + 1] == other);
            }
        }
        assert(longer[at] == name);
    }
}

/// Validates a configuration and builds its allow-list.
pub fn validate_configuration(
    sample_percentage: u32,
    capacity: usize,
    allowed_custom_commands: &[&[u8]],
) -> (result: Result<Vec<Vec<u8>>, RequestMetricsConfigurationError>)
    ensures
        match result {
            Ok(list) => {
                &&& configuration_error(
                    sample_percentage,
                    capacity,
                    slices_view(allowed_custom_commands@),
                ) is None
                &&& is_allow_list_of(vecs_view(list@), slices_view(allowed_custom_commands@))
                &&& list@.len() <= MAX_ALLOWED_CUSTOM_COMMANDS
            },
            Err(error) => configuration_error(
                sample_percentage,
                capacity,
                slices_view(allowed_custom_commands@),
            ) == Some(error),
        },
{
    match validate_sample_percentage(sample_percentage) {
        Ok(()) => {},
        Err(error) => {
            return Err(error);
        },
    }
    if capacity < 1 || capacity > MAX_BUFFER_CAPACITY {
        return Err(RequestMetricsConfigurationError::InvalidCapacity { capacity });
    }
    if allowed_custom_commands.len() > MAX_ALLOWED_CUSTOM_COMMANDS {
        return Err(
            RequestMetricsConfigurationError::TooManyAllowedCustomCommands {
                count: allowed_custom_commands.len(),
            },
        );
    }
    let ghost commands = slices_view(allowed_custom_commands@);
    let mut list: Vec<Vec<u8>> = Vec::with_capacity(allowed_custom_commands.len());
    let mut index: usize = 0;
    while index < allowed_custom_commands.len()
        invariant
            index <= allowed_custom_commands@.len() <= MAX_ALLOWED_CUSTOM_COMMANDS,
            sample_percentage <= MAX_SAMPLE_PERCENTAGE,
            1 <= capacity <= MAX_BUFFER_CAPACITY,
            commands == slices_view(allowed_custom_commands@),
            forall|j: int| 0 <= j < index ==> valid_custom_command(#[trigger] commands[j]),
            crate::metrics::byte_order::strictly_ascending(vecs_view(list@)),
            list@.len() <= index,
            forall|name: Seq<u8>|
                vecs_view(list@).contains(name) <==> commands.take(index as int).contains(name),
        decreases allowed_custom_commands@.len() - index,
    {
        let command = allowed_custom_commands[index];
        assert(commands[index as int] == command@);
        if !is_valid_custom_command(command) {
            proof {
                lemma_first_invalid(commands, 0, index as int);
            }
            return Err(RequestMetricsConfigurationError::InvalidAllowedCustomCommand { index });
        }
        let ghost before = vecs_view(list@);
        insert_command(&mut list, vstd::slice::slice_to_vec(command));
        proof {
            let shorter = commands.take(index as int);
            let longer = commands.take(index + 1);
            assert(longer =~= shorter.push(command@));
            assert forall|name: Seq<u8>|
                vecs_view(list@).contains(name) <==> longer.contains(name) by {
                if longer.contains(name) {
                    let k = choose|k: int| 0 <= k < longer.len() && longer[k] == name;
                    if k < index {
                        assert(shorter[k] == name);
                    }
                }
                if shorter.contains(name) {
                    let k = choose|k: int| 0 <= k < shorter.len() && shorter[k] == name;
                    assert(longer[k] == name);
                }
                assert(longer[index as int] == command@);
            }
        }
        index = index + 1;
    }
    proof {
        lemma_first_invalid(commands, 0, index as int);
        assert(commands.take(index as int) =~= commands);
    }
    Ok(list)
}

/// The slot of a name in an ascending list, looked up without regard to ASCII case.
pub fn find_command(list: &Vec<Vec<u8>>, operation: &[u8]) -> (slot: Option<usize>)
    requires
        crate::metrics::byte_order::strictly_ascending(vecs_view(list@)),
    ensures
        match slot {
            Some(index) => index < list@.len() && list@[index as int]@
                == crate::metrics::byte_order::upper_bytes(operation@),
            None => !vecs_view(list@).contains(crate::metrics::byte_order::upper_bytes(operation@)),
        },
{
    let ghost names = vecs_view(list@);
    let ghost key = crate::metrics::byte_order::upper_bytes(operation@);
    let mut low: usize = 0;
    let mut high: usize = list.len();
    while low < high
        invariant
            low <= high <= list@.len(),
            names == vecs_view(list@),
            key == crate::metrics::byte_order::upper_bytes(operation@),
            crate::metrics::byte_order::strictly_ascending(names),
            forall|j: int| 0 <= j < low ==> crate::metrics::byte_order::comes_before(#[trigger] names[j], key),
            forall|j: int|
                high <= j < names.len() ==> crate::metrics::byte_order::comes_before(key, #[trigger] names[j]),
        decreases high - low,
    {
        let middle: usize = low + (high - low) / 2;
        assert(names[middle as int] == list@[middle as int]@);
        match compare_with_upper(list[middle].as_slice(), operation) {
            Relation::Same => {
                return Some(middle);
            },
            Relation::Before => {
                proof {
                    assert forall|j: int| 0 <= j < middle + 1 implies crate::metrics::byte_order::comes_before(
                        #[trigger] names[j],
                        key,
                    ) by {
                        if j < middle {
                            crate::metrics::byte_order::lemma_transitive(
                                names[j],
                                names[middle as int],
                                key,
                            );
                        }
                    }
                }
                low = middle + 1;
            },
            Relation::After => {
                proof {
                    crate::metrics::byte_order::lemma_total(names[middle as int], key);
                    assert forall|j: int|
                        middle <= j < names.len() implies crate::metrics::byte_order::comes_before(
                        key,
                        #[trigger] names[j],
                    ) by {
                        if j > middle {
                            crate::metrics::byte_order::lemma_transitive(
                                key,
                                names[middle as int],
                                names[j],
                            );
                        }
                    }
                }
                high = middle;
            },
        }
    }
    proof {
        crate::metrics::byte_order::lemma_irreflexive(key);
        assert(!names.contains(key)) by {
            if names.contains(key) {
                let k = choose|k: int| 0 <= k < names.len() && names[k] == key;
                assert(k < low || high <= k);
            }
        }
    }
    None
}

/// Which names can be listed: one to 64 capitals, digits, underscores, dots and hyphens, with a
/// capital in front.
pub proof fn law_names_that_can_be_listed(command: Seq<u8>)
    ensures
        valid_custom_command(command) <==> {
            &&& 1 <= command.len() <= 64
            &&& 65 <= command[0] <= 90
            &&& forall|i: int|
                #![trigger command[i]]
                0 <= i < command.len() ==> {
                    ||| 65 <= command[i] <= 90
                    ||| 48 <= command[i] <= 57
                    ||| command[i] == 95
                    ||| command[i] == 46
                    ||| command[i] == 45
                }
        },
{
    if valid_custom_command(command) {
        assert forall|i: int| #![trigger command[i]] 0 <= i < command.len() implies {
            ||| 65 <= command[i] <= 90
            ||| 48 <= command[i] <= 57
            ||| command[i] == 95
            ||| command[i] == 46
            ||| command[i] == 45
        } by {
            assert(is_command_byte(command[i]));
        }
    }
}

/// A configuration is refused for the first thing that is wrong with it: a percentage above 100, a
/// capacity that is not between 1 and 1,000,000, more than 64 names, or a name that cannot be
/// listed, and then the first such name. The refusal names what it found, and nothing else is
/// refused.
pub proof fn law_configurations_that_are_refused(
    sample_percentage: u32,
    capacity: usize,
    commands: Seq<Seq<u8>>,
    index: int,
)
    requires
        commands.len() <= usize::MAX,
    ensures
        ({
            let error = configuration_error(sample_percentage, capacity, commands);
            let good_capacity = 1 <= capacity <= 1_000_000;
            let first_bad = 0 <= index < commands.len() && !valid_custom_command(commands[index])
                && forall|j: int| 0 <= j < index ==> valid_custom_command(#[trigger] commands[j]);
            &&& sample_percentage > 100 ==> error == Some(
                RequestMetricsConfigurationError::InvalidSamplePercentage {
                    percentage: sample_percentage,
                },
            )
            &&& sample_percentage <= 100 && !good_capacity ==> error == Some(
                RequestMetricsConfigurationError::InvalidCapacity { capacity },
            )
            &&& sample_percentage <= 100 && good_capacity && commands.len() > 64 ==> (error matches
                Some(
                RequestMetricsConfigurationError::TooManyAllowedCustomCommands { count },
            ) && count == commands.len())
            &&& sample_percentage <= 100 && good_capacity && commands.len() <= 64 && first_bad ==> (
            error matches Some(
                RequestMetricsConfigurationError::InvalidAllowedCustomCommand { index: found },
            ) && found == index)
            &&& error is None <==> {
                &&& sample_percentage <= 100
                &&& good_capacity
                &&& commands.len() <= 64
                &&& forall|j: int|
                    0 <= j < commands.len() ==> valid_custom_command(#[trigger] commands[j])
            }
        }),
{
    if commands.len() <= 64 {
        if 0 <= index < commands.len() && !valid_custom_command(commands[index]) && forall|j: int|
            0 <= j < index ==> valid_custom_command(#[trigger] commands[j]) {
            lemma_first_invalid(commands, 0, index);
        }
        if forall|j: int| 0 <= j < commands.len() ==> valid_custom_command(#[trigger] commands[j]) {
            lemma_first_invalid(commands, 0, commands.len() as int);
        }
        if first_invalid(commands, 0) >= commands.len() {
            lemma_all_valid(commands, 0);
        }
    }
}

/// An allow-list holds the given names and no others, each once, the smaller before the larger.
pub proof fn law_allow_list_holds_the_names(
    list: Seq<Seq<u8>>,
    commands: Seq<Seq<u8>>,
    name: Seq<u8>,
    earlier: int,
    later: int,
)
    requires
        is_allow_list_of(list, commands),
        0 <= earlier < later < list.len(),
    ensures
        list.contains(name) <==> commands.contains(name),
        crate::metrics::byte_order::comes_before(list[earlier], list[later]),
        list[earlier] != list[later],
{
    crate::metrics::byte_order::lemma_irreflexive(list[earlier]);
}

/// A list of one name is the allow-list of any list that holds that name alone, and no names make an
/// empty list.
pub proof fn law_small_allow_lists(name: Seq<u8>, commands: Seq<Seq<u8>>)
    ensures
        (forall|other: Seq<u8>| commands.contains(other) <==> other == name) ==> is_allow_list_of(
            seq![name],
            commands,
        ),
        commands.len() == 0 ==> is_allow_list_of(Seq::<Seq<u8>>::empty(), commands),
{
    assert(seq![name][0] == name);
}

/// The bytes of names are shown as they are, each in its place.
pub proof fn law_names_show_themselves(slices: Seq<&[u8]>, vecs: Seq<Vec<u8>>)
    ensures
        slices_view(slices).len() == slices.len(),
        forall|i: int| 0 <= i < slices.len() ==> #[trigger] slices_view(slices)[i] == slices[i]@,
        vecs_view(vecs).len() == vecs.len(),
        forall|i: int| 0 <= i < vecs.len() ==> #[trigger] vecs_view(vecs)[i] == vecs[i]@,
{
}

} // verus!
