//! Which file a session starts from, and what it saves.
//!
//! A list is kept in one file per day, named after the day. A session
//! starts from the newest file that is not dated after today and carries
//! its items over to today. This module decides; reading directories and
//! files is left to the caller.

use crate::chars::{copy_range, to_chars, to_string};
use crate::date::Date;
use crate::markdown::{decode, decoded_view, encode, file_name, InvalidFormat};
use crate::model::{ListView, TodoList};
use crate::todo_app::TodoApp;
use vstd::prelude::*;

verus! {

/// What the name of a list file begins with.
pub open spec fn name_head() -> Seq<char> {
    seq!['T', 'O', 'D', 'O', '-']
}

/// What the name of a list file ends with.
pub open spec fn name_tail() -> Seq<char> {
    seq!['.', 'm', 'd']
}

/// What stands between head and tail of the name of a list file.
pub open spec fn file_date_text(name: Seq<char>) -> Option<Seq<char>> {
    if name_head().is_prefix_of(name) && name_tail().is_suffix_of(name) {
        Some(name.subrange(5, name.len() - 3))
    } else {
        None
    }
}

/// The day that a file is named after, if it is named after one.
pub open spec fn file_date(name: Seq<char>) -> Option<Date> {
    match file_date_text(name) {
        Some(text) => Date::of_text(text),
        None => None,
    }
}

/// The days that files are named after.
pub open spec fn file_dates(names: Seq<String>) -> Seq<Option<Date>> {
    Seq::new(names.len(), |i: int| file_date(names[i]@))
}

/// The file is named after a day that is not after `today`.
pub open spec fn is_candidate(date: Option<Date>, today: Date) -> bool {
    date matches Some(d) && !today.before(&d)
}

/// The file is named after a day that is after `today`.
pub open spec fn is_future(date: Option<Date>, today: Date) -> bool {
    date matches Some(d) && today.before(&d)
}

/// Among the first `n` files, the position of the one to start from: the
/// first of those with the latest day that is not after `today`.
pub open spec fn newest(dates: Seq<Option<Date>>, today: Date, n: nat) -> Option<int>
    decreases n,
{
    if n == 0 {
        None
    } else {
        let before = newest(dates, today, (n - 1) as nat);
        let last = dates[n - 1];
        if is_candidate(last, today) && (before matches Some(b) ==> (dates[b]->0).before(
            &last->0,
        )) {
            Some(n - 1)
        } else {
            before
        }
    }
}

/// Among the first `n` files, the positions of those that are dated after
/// `today`, in order.
pub open spec fn future(dates: Seq<Option<Date>>, today: Date, n: nat) -> Seq<int>
    decreases n,
{
    if n == 0 {
        Seq::empty()
    } else if is_future(dates[n - 1], today) {
        future(dates, today, (n - 1) as nat).push(n - 1)
    } else {
        future(dates, today, (n - 1) as nat)
    }
}

/// Positions in a list of file names, as numbers.
pub open spec fn positions(v: Seq<usize>) -> Seq<int> {
    Seq::new(v.len(), |i: int| v[i] as int)
}

/// A position that was found, as a number.
pub open spec fn position(r: Option<usize>) -> Option<int> {
    match r {
        Some(i) => Some(i as int),
        None => None,
    }
}

/// What holds of the choice among the first `n` files.
proof fn lemma_newest_of_first(dates: Seq<Option<Date>>, today: Date, n: nat)
    requires
        n <= dates.len(),
    ensures
        match newest(dates, today, n) {
            Some(i) => {
                &&& 0 <= i < n
                &&& is_candidate(dates[i], today)
                &&& forall|j: int|
                    0 <= j < n && is_candidate(#[trigger] dates[j], today) ==> !(dates[i]->0).before(
                        &dates[j]->0,
                    )
                &&& forall|j: int|
                    0 <= j < i && is_candidate(#[trigger] dates[j], today) ==> (dates[j]->0).before(
                        &dates[i]->0,
                    )
            },
            None => forall|j: int| 0 <= j < n ==> !is_candidate(#[trigger] dates[j], today),
        },
    decreases n,
{
    if n > 0 {
        lemma_newest_of_first(dates, today, (n - 1) as nat);
    }
}

/// The file that is chosen is named after a day that is not after `today`;
/// no file is named after a later day that is not after `today`; and the
/// files before it with such a day are all named after earlier days. Where
/// no file is chosen, no file is named after a day that is not after
/// `today`.
pub proof fn lemma_newest_is_latest(dates: Seq<Option<Date>>, today: Date)
    ensures
        match newest(dates, today, dates.len()) {
            Some(i) => {
                &&& 0 <= i < dates.len()
                &&& is_candidate(dates[i], today)
                &&& forall|j: int|
                    0 <= j < dates.len() && is_candidate(#[trigger] dates[j], today) ==> !(
                    dates[i]->0).before(&dates[j]->0)
                &&& forall|j: int|
                    0 <= j < i && is_candidate(#[trigger] dates[j], today) ==> (dates[j]->0).before(
                        &dates[i]->0,
                    )
            },
            None => forall|j: int|
                0 <= j < dates.len() ==> !is_candidate(#[trigger] dates[j], today),
        },
{
    lemma_newest_of_first(dates, today, dates.len());
}

/// What holds of the files among the first `n` that are dated after
/// `today`.
proof fn lemma_future_of_first(dates: Seq<Option<Date>>, today: Date, n: nat)
    requires
        n <= dates.len(),
    ensures
        forall|k: int|
            0 <= k < future(dates, today, n).len() ==> 0 <= (#[trigger] future(dates, today, n)[k])
                < n && is_future(dates[future(dates, today, n)[k]], today),
        forall|k: int, l: int|
            0 <= k < l < future(dates, today, n).len() ==> future(dates, today, n)[k] < future(
                dates,
                today,
                n,
            )[l],
        forall|j: int|
            0 <= j < n && is_future(#[trigger] dates[j], today) ==> future(
                dates,
                today,
                n,
            ).contains(j),
    decreases n,
{
    if n > 0 {
        let before = future(dates, today, (n - 1) as nat);
        let all = future(dates, today, n);
        lemma_future_of_first(dates, today, (n - 1) as nat);
        assert forall|j: int| 0 <= j < n && is_future(#[trigger] dates[j], today) implies all.contains(
            j,
        ) by {
            if j < n - 1 {
                let k = choose|k: int| 0 <= k < before.len() && before[k] == j;
                assert(all[k] == j);
            } else {
                assert(all[all.len() - 1] == j);
            }
        }
    }
}

/// The positions that are reported as dated after `today` are those of
/// the files that are, each once and in ascending order.
pub proof fn lemma_future_is_exact(dates: Seq<Option<Date>>, today: Date)
    ensures
        forall|k: int|
            0 <= k < future(dates, today, dates.len()).len() ==> 0 <= (#[trigger] future(
                dates,
                today,
                dates.len(),
            )[k]) < dates.len() && is_future(dates[future(dates, today, dates.len())[k]], today),
        forall|k: int, l: int|
            0 <= k < l < future(dates, today, dates.len()).len() ==> future(
                dates,
                today,
                dates.len(),
            )[k] < future(dates, today, dates.len())[l],
        forall|j: int|
            0 <= j < dates.len() && is_future(#[trigger] dates[j], today) ==> future(
                dates,
                today,
                dates.len(),
            ).contains(j),
{
    lemma_future_of_first(dates, today, dates.len());
}

/// The name of the file of a day names that day.
pub proof fn lemma_file_name_round_trip(date: Date)
    requires
        date.wf(),
    ensures
        file_date(file_name(date)) == Some(date),
{
    let name = file_name(date);
    assert(name.subrange(5, name.len() - 3) =~= date.text());
    Date::lemma_text_round_trip(date);
}

/// What the scan of a directory found.
#[derive(Debug)]
pub struct Scan {
    /// The position of the file to start from, if there is one.
    pub chosen: Option<usize>,
    /// The positions of the files that are dated after today.
    pub future: Vec<usize>,
}

/// What is written when a list is saved.
#[derive(Debug)]
pub struct SavedFile {
    /// The name of the file.
    pub name: String,
    /// The text of the file.
    pub content: String,
}

/// The text between head and tail of the name of a list file.
pub fn date_part(name: &str) -> (r: Option<String>)
    ensures
        match r {
            Some(text) => file_date_text(name@) == Some(text@),
            None => file_date_text(name@) is None,
        },
{
    let chars = to_chars(name);
    let n = chars.len();
    if n < 8 {
        // Head and tail would share the character at position 4, which
        // cannot be the last of the head and one of the tail.
        assert(n >= 5 ==> chars@.subrange(0, 5)[4] == chars@.subrange(n - 3, n as int)[7 - n]);
        assert(n >= 5 ==> name_head()[4] != name_tail()[7 - n]);
        return None;
    }
    let fits = chars[0] == 'T' && chars[1] == 'O' && chars[2] == 'D' && chars[3] == 'O' && chars[4]
        == '-' && chars[n - 3] == '.' && chars[n - 2] == 'm' && chars[n - 1] == 'd';
    assert(fits == (name_head() =~= chars@.subrange(0, 5) && name_tail() =~= chars@.subrange(
        n - 3,
        n as int,
    )));
    if fits {
        Some(to_string(&copy_range(&chars, 5, n - 3)))
    } else {
        None
    }
}

/// The day that the file `name` is named after, if it is named after one.
pub fn todo_file_date(name: &str) -> (r: Option<Date>)
    ensures
        r == file_date(name@),
        r matches Some(d) ==> d.wf(),
{
    match date_part(name) {
        Some(text) => Date::parse(text.as_str()),
        None => None,
    }
}

/// Chooses among files that are named after `dates`, where `None` stands
/// for a file that is named after no day.
pub fn choose_file(dates: &Vec<Option<Date>>, today: Date) -> (scan: Scan)
    ensures
        position(scan.chosen) == newest(dates@, today, dates@.len()),
        positions(scan.future@) == future(dates@, today, dates@.len()),
{
    let mut chosen: Option<usize> = None;
    let mut future_files: Vec<usize> = Vec::new();
    let mut i: usize = 0;
    while i < dates.len()
        invariant
            i <= dates.len(),
            position(chosen) == newest(dates@, today, i as nat),
            chosen matches Some(b) ==> b < i && dates@[b as int] is Some,
            positions(future_files@) == future(dates@, today, i as nat),
        decreases dates.len() - i,
    {
        match dates[i] {
            Some(date) => {
                if today.is_before(&date) {
                    future_files.push(i);
                } else {
                    let later = match chosen {
                        Some(b) => match dates[b] {
                            Some(best) => best.is_before(&date),
                            None => false,
                        },
                        None => true,
                    };
                    if later {
                        chosen = Some(i);
                    }
                }
            },
            None => {},
        }
        i += 1;
    }
    Scan { chosen, future: future_files }
}

/// Chooses among the files of a directory, given by their names.
pub fn scan_file_names(names: &Vec<String>, today: Date) -> (scan: Scan)
    ensures
        position(scan.chosen) == newest(file_dates(names@), today, names@.len()),
        positions(scan.future@) == future(file_dates(names@), today, names@.len()),
{
    let mut dates: Vec<Option<Date>> = Vec::new();
    let mut i: usize = 0;
    while i < names.len()
        invariant
            i <= names.len(),
            dates@ == file_dates(names@).take(i as int),
        decreases names.len() - i,
    {
        let date = todo_file_date(names[i].as_str());
        dates.push(date);
        i += 1;
    }
    assert(dates@ =~= file_dates(names@));
    choose_file(&dates, today)
}

/// What a session starts from where no file was chosen: the empty list of
/// today; and where `content` is the text of the chosen file: the list that
/// the text stands for, dated today.
pub fn load_or_create_todo_list(content: Option<&str>, today: Date) -> (r: Result<
    TodoList,
    InvalidFormat,
>)
    ensures
        decoded_view(r) == match content {
            Some(text) => match decode(text@) {
                Ok(list) => Ok(ListView { date: today, ..list }),
                Err(e) => Err(e),
            },
            None => Ok(ListView { date: today, items: Seq::empty() }),
        },
{
    match content {
        Some(text) => match TodoList::from_markdown(text) {
            Ok(list) => {
                let mut list = list;
                list.date = today;
                Ok(list)
            },
            Err(e) => Err(e),
        },
        None => Ok(TodoList::new(today)),
    }
}

impl TodoApp {
    /// Dates the list `today` and returns what is to be written to save
    /// it: the name of the file of today and the text of the list.
    pub fn save_todo_list(&mut self, today: Date) -> (file: SavedFile)
        ensures
            final(self)@ == (ListView { date: today, ..old(self)@ }),
            file.name@ == file_name(today),
            file.content@ == encode(final(self)@),
    {
        self.todo_list.date = today;
        SavedFile { name: self.todo_list.filename(), content: self.todo_list.to_markdown() }
    }
}

} // verus!
