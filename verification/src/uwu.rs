use crate::git::GitStats;
use vstd::prelude::*;
use vstd::string::*;

verus! {

/// The fixed message of every commit that the program makes.
pub fn get_commit_message() -> (message: &'static str)
    ensures
        message@ == "this commit is made by kwis uwu"@,
{
    "this commit is made by kwis uwu"
}

/// The whole body where no statistics could be read.
pub open spec fn reminder_alone() -> Seq<char> {
    "Don't fowget to commit youw changes, pwease! ^w^"@
}

/// The whole body where the statistics show neither insertions nor deletions.
pub open spec fn no_changes_yet() -> Seq<char> {
    "Nu-nu changes yet? owo Time to get to wowk!"@
}

/// What every other body starts with.
pub open spec fn greeting() -> Seq<char> {
    "nyaa! "@
}

/// What every body that starts with the greeting ends with.
pub open spec fn reminder() -> Seq<char> {
    "Don't fowget to commit youw changes, pwease! ^w^ "@
}

/// The phrase for deletions that grew since the previous sample.
pub open spec fn cleanup_spree() -> Seq<char> {
    "You'we on a deweting spwee! Cweaning up code wike a boss! ^w^"@
}

/// The phrase for insertions that grew since the previous sample.
pub open spec fn coding_burst() -> Seq<char> {
    "Wow, a sudden buwst of coding! Keep dat momentum going, uwu! "@
}

/// The phrase for more deletions than insertions.
pub open spec fn optimizing() -> Seq<char> {
    "Optimizing wike a pwo! Wess is mowe, wight? :3 "@
}

/// The phrase for more insertions than deletions.
pub open spec fn keep_coding() -> Seq<char> {
    "Wook at chu, coding away! Keep it up, nyaa! "@
}

/// The phrase for many changes after a quiet previous sample.
pub open spec fn sudden_activity() -> Seq<char> {
    "You've been quiet, but now you'we a coding machine! UwU "@
}

/// The phrase chosen by the first rule that matches, the empty phrase where
/// none does. Without a previous sample only the two rules that look at the
/// current sample alone take part.
pub open spec fn themed_phrase(current: GitStats, previous: Option<GitStats>) -> Seq<char> {
    match previous {
        Some(before) => {
            if current.deletions > before.deletions && current.deletions > 10 {
                cleanup_spree()
            } else if current.insertions > before.insertions && current.insertions > 20 {
                coding_burst()
            } else if current.deletions > current.insertions && current.deletions > 10 {
                optimizing()
            } else if current.insertions > current.deletions && current.insertions > 20 {
                keep_coding()
            } else if current.total_changes > 30 && before.total_changes < 5 {
                sudden_activity()
            } else {
                Seq::empty()
            }
        },
        None => {
            if current.deletions > current.insertions && current.deletions > 10 {
                optimizing()
            } else if current.insertions > current.deletions && current.insertions > 20 {
                keep_coding()
            } else {
                Seq::empty()
            }
        },
    }
}

/// The text of the periodic notification for the current sample, given the
/// sample of the notification before it.
pub open spec fn notification_body(
    current: Option<GitStats>,
    previous: Option<GitStats>,
) -> Seq<char> {
    match current {
        None => reminder_alone(),
        Some(stats) => {
            if stats.insertions == 0 && stats.deletions == 0 {
                no_changes_yet()
            } else {
                greeting() + themed_phrase(stats, previous) + reminder()
            }
        },
    }
}

/// Whether `needle` occurs in `haystack` as a run of consecutive characters.
pub open spec fn has_substring(haystack: Seq<char>, needle: Seq<char>) -> bool {
    exists|i: int|
        0 <= i && i + needle.len() <= haystack.len() && #[trigger] haystack.subrange(
            i,
            i + needle.len(),
        ) == needle
}

/// `str::contains` of the standard library, called with a string as the
/// pattern: true exactly when the pattern occurs somewhere in the string.
#[verifier::external_body]
fn str_contains(haystack: &str, needle: &str) -> (found: bool)
    ensures
        found == has_substring(haystack@, needle@),
{
    haystack.contains(needle)
}

/// Whether the letter `m` stands at `i` and again right after it.
spec fn double_m_at(text: Seq<char>, i: int) -> bool {
    text[i] == 'm' && text[i + 1] == 'm'
}

/// A text in which no `m` follows an `m` does not hold the word "commit".
proof fn lemma_no_double_m(text: Seq<char>)
    requires
        forall|i: int| 0 <= i && i + 1 < text.len() ==> !#[trigger] double_m_at(text, i),
    ensures
        !has_substring(text, "commit"@),
{
    reveal_strlit("commit");
    let word = "commit"@;
    assert forall|i: int| 0 <= i && i + word.len() <= text.len() implies #[trigger] text.subrange(
        i,
        i + word.len(),
    ) != word by {
        let window = text.subrange(i, i + word.len());
        if window == word {
            assert(window[2] == 'm' && window[3] == 'm');
            assert(double_m_at(text, i + 2));
        }
    }
}

/// No themed phrase, with the greeting before it, holds the word "commit":
/// the closing reminder is always due.
proof fn lemma_phrase_lacks_commit(current: GitStats, previous: Option<GitStats>)
    ensures
        !has_substring(greeting() + themed_phrase(current, previous), "commit"@),
{
    reveal_strlit("nyaa! ");
    reveal_strlit("You'we on a deweting spwee! Cweaning up code wike a boss! ^w^");
    reveal_strlit("Wow, a sudden buwst of coding! Keep dat momentum going, uwu! ");
    reveal_strlit("Optimizing wike a pwo! Wess is mowe, wight? :3 ");
    reveal_strlit("Wook at chu, coding away! Keep it up, nyaa! ");
    reveal_strlit("You've been quiet, but now you'we a coding machine! UwU ");
    let phrase = themed_phrase(current, previous);
    assert(phrase == cleanup_spree() || phrase == coding_burst() || phrase == optimizing()
        || phrase == keep_coding() || phrase == sudden_activity() || phrase == Seq::<char>::empty());
    lemma_no_double_m(greeting() + phrase);
}

/// The text of the periodic notification: a fixed reminder without
/// statistics, a fixed line where nothing was inserted or deleted, and else a
/// greeting, the phrase of the first matching rule, and the reminder.
pub fn get_notification_body(
    current_stats: Option<GitStats>,
    previous_stats: Option<GitStats>,
) -> (body: String)
    ensures
        body@ == notification_body(current_stats, previous_stats),
        current_stats matches Some(stats) && stats.insertions == 0 && stats.deletions == 0
            ==> body@ == no_changes_yet(),
        current_stats matches Some(stats) && previous_stats matches Some(before)
            && stats.deletions > before.deletions && stats.deletions > 10 ==> body@ == greeting()
            + cleanup_spree() + reminder(),
{
    match current_stats {
        Some(current) => {
            let mut message = String::new();
            if current.insertions == 0 && current.deletions == 0 {
                message.append("Nu-nu changes yet? owo Time to get to wowk!");
            } else {
                message.append("nyaa! ");
                if let Some(previous) = previous_stats {
                    if current.deletions > previous.deletions && current.deletions > 10 {
                        message.append(
                            "You'we on a deweting spwee! Cweaning up code wike a boss! ^w^",
                        );
                    } else if current.insertions > previous.insertions && current.insertions > 20 {
                        message.append(
                            "Wow, a sudden buwst of coding! Keep dat momentum going, uwu! ",
                        );
                    } else if current.deletions > current.insertions && current.deletions > 10 {
                        message.append("Optimizing wike a pwo! Wess is mowe, wight? :3 ");
                    } else if current.insertions > current.deletions && current.insertions > 20 {
                        message.append("Wook at chu, coding away! Keep it up, nyaa! ");
                    } else if current.total_changes > 30 && previous.total_changes < 5 {
                        message.append("You've been quiet, but now you'we a coding machine! UwU ");
                    }
                } else {
                    if current.deletions > current.insertions && current.deletions > 10 {
                        message.append("Optimizing wike a pwo! Wess is mowe, wight? :3 ");
                    } else if current.insertions > current.deletions && current.insertions > 20 {
                        message.append("Wook at chu, coding away! Keep it up, nyaa! ");
                    }
                }
                assert(message@ == greeting() + themed_phrase(current, previous_stats));
                proof {
                    lemma_phrase_lacks_commit(current, previous_stats);
                }
                if message.as_str().is_empty() || !str_contains(message.as_str(), "commit") {
                    message.append("Don't fowget to commit youw changes, pwease! ^w^ ");
                }
            }
            message
        },
        None => "Don't fowget to commit youw changes, pwease! ^w^".to_string(),
    }
}

} // verus!
