//! Keeping the folder of the local records out of version control: the
//! decision whether the ignore list has to be rewritten, and with what.

use vstd::prelude::*;

verus! {

/// The views of a list of lines, in order.
pub open spec fn line_views(lines: Seq<String>) -> Seq<Seq<char>> {
    Seq::new(lines.len(), |i: int| lines[i]@)
}

/// Whether a line of the list is the entry, letter for letter.
pub open spec fn lists(lines: Seq<Seq<char>>, entry: Seq<char>) -> bool {
    exists|i: int| 0 <= i < lines.len() && lines[i] == entry
}

/// Decides what becomes of the ignore list, given its lines as they are.
///
/// Where a line already names the entry, nothing is to be written. Else the
/// list is to be rewritten with the entry as its new last line, the lines
/// before it unchanged.
pub fn add_flowaim_config_filename_if_needed(
    lines: Vec<String>,
    flowaim_config_filename: &str,
) -> (rewritten: Option<Vec<String>>)
    ensures
        match rewritten {
            None => lists(line_views(lines@), flowaim_config_filename@),
            Some(list) => !lists(line_views(lines@), flowaim_config_filename@) && line_views(list@)
                == line_views(lines@).push(flowaim_config_filename@),
        },
{
    let entry = String::from_str(flowaim_config_filename);
    let mut index: usize = 0;
    while index < lines.len()
        invariant
            index <= lines@.len(),
            entry@ == flowaim_config_filename@,
            forall|k: int| 0 <= k < index ==> lines@[k]@ != flowaim_config_filename@,
        decreases lines@.len() - index,
    {
        if lines[index] == entry {
            assert(line_views(lines@)[index as int] == flowaim_config_filename@);
            return None;
        }
        index += 1;
    }
    assert(!lists(line_views(lines@), flowaim_config_filename@)) by {
        assert forall|i: int| 0 <= i < line_views(lines@).len() implies line_views(lines@)[i]
            != flowaim_config_filename@ by {
            assert(line_views(lines@)[i] == lines@[i]@);
        }
    }
    let ghost before = lines@;
    let mut list = lines;
    list.push(entry);
    assert(line_views(list@) =~= line_views(before).push(flowaim_config_filename@));
    Some(list)
}

} // verus!
