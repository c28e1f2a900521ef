//! Lessons, and the way from a lesson path and an exercise path to the
//! exercise and its neighbours.

use crate::exercise::{Exercise, ExerciseCategory};
use crate::text::same_text;
use percent_encoding::percent_decode_str;
use vstd::prelude::*;
use vstd::string::*;

verus! {

/// A lesson: a list of exercises under a name and a path.
#[derive(Clone, Debug, PartialEq)]
pub struct Lesson {
    pub name: String,
    pub path: String,
    pub exercises: Vec<Exercise>,
}

/// The lessons of the course, in order.
#[derive(Clone, Debug, PartialEq)]
pub struct Lessons {
    pub lessons: Vec<Lesson>,
}

/// The place of the first text of `names` that equals `wanted`.
pub open spec fn first_index(names: Seq<Seq<char>>, wanted: Seq<char>) -> Option<int>
    decreases names.len(),
{
    if names.len() == 0 {
        None
    } else if names[0] == wanted {
        Some(0)
    } else {
        match first_index(names.drop_first(), wanted) {
            Some(i) => Some(i + 1),
            None => None,
        }
    }
}

/// `first_index` gives the least index that holds the text, and nothing
/// where no index holds it.
pub proof fn first_index_spec(names: Seq<Seq<char>>, wanted: Seq<char>)
    ensures
        match first_index(names, wanted) {
            Some(i) => 0 <= i < names.len() && names[i] == wanted && forall|k: int|
                0 <= k < i ==> names[k] != wanted,
            None => forall|k: int| 0 <= k < names.len() ==> names[k] != wanted,
        },
    decreases names.len(),
{
    if names.len() > 0 && names[0] != wanted {
        let rest = names.drop_first();
        first_index_spec(rest, wanted);
        match first_index(rest, wanted) {
            Some(i) => {
                assert forall|k: int| 0 <= k < i + 1 implies names[k] != wanted by {
                    if k > 0 {
                        assert(names[k] == rest[k - 1]);
                    }
                }
            },
            None => {
                assert forall|k: int| 0 <= k < names.len() implies names[k] != wanted by {
                    if k > 0 {
                        assert(names[k] == rest[k - 1]);
                    }
                }
            },
        }
    }
}

/// An index that holds the first text equal to `wanted` is what
/// `first_index` gives.
pub proof fn first_index_found(names: Seq<Seq<char>>, wanted: Seq<char>, i: int)
    requires
        0 <= i < names.len(),
        names[i] == wanted,
        forall|k: int| 0 <= k < i ==> names[k] != wanted,
    ensures
        first_index(names, wanted) == Some(i),
{
    first_index_spec(names, wanted);
}

/// Where no text equals `wanted` there is no first index.
pub proof fn first_index_absent(names: Seq<Seq<char>>, wanted: Seq<char>)
    requires
        forall|k: int| 0 <= k < names.len() ==> names[k] != wanted,
    ensures
        first_index(names, wanted) is None,
{
    first_index_spec(names, wanted);
}

/// The paths of the lessons, in order.
pub open spec fn lesson_paths(lessons: Seq<Lesson>) -> Seq<Seq<char>> {
    Seq::new(lessons.len(), |i: int| lessons[i].path@)
}

/// The names of the exercises in paths, in order.
pub open spec fn exercise_paths(exercises: Seq<Exercise>) -> Seq<Seq<char>> {
    Seq::new(exercises.len(), |i: int| exercises[i].path_name())
}

/// The names of the categories in paths, in the order of their listing.
pub open spec fn category_names() -> Seq<Seq<char>> {
    Seq::new(
        ExerciseCategory::listed().len(),
        |i: int| ExerciseCategory::listed()[i].name(),
    )
}

/// The exercises of a list that belong to a category, in order.
pub open spec fn chosen(exercises: Seq<Exercise>, category: ExerciseCategory) -> Seq<Exercise>
    decreases exercises.len(),
{
    if exercises.len() == 0 {
        seq![]
    } else if exercises.last().categories is Some && exercises.last().categories->0@.contains(
        category,
    ) {
        chosen(exercises.drop_last(), category).push(exercises.last())
    } else {
        chosen(exercises.drop_last(), category)
    }
}

/// The exercises of all lessons that belong to a category, lesson after
/// lesson.
pub open spec fn category_exercises(
    lessons: Seq<Lesson>,
    category: ExerciseCategory,
) -> Seq<Exercise>
    decreases lessons.len(),
{
    if lessons.len() == 0 {
        seq![]
    } else {
        category_exercises(lessons.drop_last(), category) + chosen(
            lessons.last().exercises@,
            category,
        )
    }
}

/// The exercises that a list of references leads to.
pub open spec fn referred(exercises: Seq<&Exercise>) -> Seq<Exercise> {
    Seq::new(exercises.len(), |i: int| *exercises[i])
}

/// The way to an exercise: the path of its lesson and its own.
#[derive(Clone, Debug, PartialEq, Eq)]
pub struct ExerciseLink {
    pub lesson_path: String,
    pub exercise_path: String,
}

/// Where the page of an exercise leads back to.
#[derive(Clone, Debug, PartialEq, Eq)]
pub enum ReturnRoute {
    Lesson { path: String },
    ExerciseCategory { category: ExerciseCategory },
}

/// The page of one exercise: the exercise, the title, and the ways back, to
/// the exercise before and to the one after.
#[derive(Debug, PartialEq)]
pub struct ExercisePage<'a> {
    pub lesson_name: String,
    pub exercise: &'a Exercise,
    pub return_route: ReturnRoute,
    pub prev_route: Option<ExerciseLink>,
    pub next_route: Option<ExerciseLink>,
}

/// What a lesson path and an exercise path lead to.
#[derive(Debug, PartialEq)]
pub enum PageLookup<'a> {
    /// The path names neither a lesson nor a category.
    UnknownLesson,
    /// The lesson or category has no such exercise.
    UnknownExercise { lesson_path: String },
    Found(ExercisePage<'a>),
}

/// The texts of a link.
pub open spec fn link_texts(link: Option<ExerciseLink>) -> Option<(Seq<char>, Seq<char>)> {
    match link {
        Some(l) => Some((l.lesson_path@, l.exercise_path@)),
        None => None,
    }
}

/// The link to the exercise at `at`, under the lesson path `under`.
pub open spec fn link_to(under: Seq<char>, exercises: Seq<Exercise>, at: int) -> Option<
    (Seq<char>, Seq<char>),
> {
    Some((under, exercises[at].path_name()))
}

/// The exercise before the one at `at` in a list, if there is one.
pub open spec fn before_in_list(under: Seq<char>, exercises: Seq<Exercise>, at: int) -> Option<
    (Seq<char>, Seq<char>),
> {
    if at == 0 {
        None
    } else {
        link_to(under, exercises, at - 1)
    }
}

/// The exercise after the one at `at` in a list, if there is one.
pub open spec fn after_in_list(under: Seq<char>, exercises: Seq<Exercise>, at: int) -> Option<
    (Seq<char>, Seq<char>),
> {
    if at == exercises.len() - 1 {
        None
    } else {
        link_to(under, exercises, at + 1)
    }
}

/// The exercise before exercise `at` of lesson `li`: the one before it in
/// the lesson, or the last of the lesson before.
pub open spec fn before_in_course(lessons: Seq<Lesson>, li: int, at: int) -> Option<
    (Seq<char>, Seq<char>),
> {
    if at > 0 {
        link_to(lessons[li].path@, lessons[li].exercises@, at - 1)
    } else if li > 0 && lessons[li - 1].exercises@.len() > 0 {
        link_to(lessons[li - 1].path@, lessons[li - 1].exercises@, lessons[li - 1].exercises@.len() - 1)
    } else {
        None
    }
}

/// The exercise after exercise `at` of lesson `li`: the one after it in the
/// lesson, or the first of the lesson after.
pub open spec fn after_in_course(lessons: Seq<Lesson>, li: int, at: int) -> Option<
    (Seq<char>, Seq<char>),
> {
    if at < lessons[li].exercises@.len() - 1 {
        link_to(lessons[li].path@, lessons[li].exercises@, at + 1)
    } else if li < lessons.len() - 1 && lessons[li + 1].exercises@.len() > 0 {
        link_to(lessons[li + 1].path@, lessons[li + 1].exercises@, 0)
    } else {
        None
    }
}

/// Whether `found` is what the lesson path and the exercise path lead to.
/// The lesson path names a lesson, or else a category with the exercises of
/// all lessons that belong to it; the exercise is the first of them with
/// the exercise path as its name.
pub open spec fn is_page_of(
    found: PageLookup,
    lessons: Seq<Lesson>,
    lesson_path: Seq<char>,
    exercise_path: Seq<char>,
) -> bool {
    match first_index(lesson_paths(lessons), lesson_path) {
        Some(li) => {
            let exercises = lessons[li].exercises@;
            match first_index(exercise_paths(exercises), exercise_path) {
                None => found is UnknownExercise && found->lesson_path@ == lessons[li].path@,
                Some(at) => {
                    &&& found is Found
                    &&& found->Found_0.lesson_name@ == lessons[li].name@
                    &&& *found->Found_0.exercise == exercises[at]
                    &&& found->Found_0.return_route is Lesson
                    &&& found->Found_0.return_route->path@ == lessons[li].path@
                    &&& link_texts(found->Found_0.prev_route) == before_in_course(lessons, li, at)
                    &&& link_texts(found->Found_0.next_route) == after_in_course(lessons, li, at)
                },
            }
        },
        None => match first_index(category_names(), lesson_path) {
            None => found is UnknownLesson,
            Some(ci) => {
                let category = ExerciseCategory::listed()[ci];
                let exercises = category_exercises(lessons, category);
                match first_index(exercise_paths(exercises), exercise_path) {
                    None => found is UnknownExercise && found->lesson_path@ == lesson_path,
                    Some(at) => {
                        &&& found is Found
                        &&& found->Found_0.lesson_name@ == category.proper_name()
                        &&& *found->Found_0.exercise == exercises[at]
                        &&& found->Found_0.return_route == (ReturnRoute::ExerciseCategory {
                            category,
                        })
                        &&& link_texts(found->Found_0.prev_route) == before_in_list(
                            lesson_path,
                            exercises,
                            at,
                        )
                        &&& link_texts(found->Found_0.next_route) == after_in_list(
                            lesson_path,
                            exercises,
                            at,
                        )
                    },
                }
            },
        },
    }
}

/// Whether the lesson path names a lesson or a category.
pub open spec fn names_a_group(lessons: Seq<Lesson>, lesson_path: Seq<char>) -> bool {
    first_index(lesson_paths(lessons), lesson_path) is Some || first_index(
        category_names(),
        lesson_path,
    ) is Some
}

/// What a path stands for once its percent escapes are resolved and the
/// bytes read as UTF-8; nothing where they are not well-formed UTF-8.
pub uninterp spec fn percent_decoded(path: Seq<char>) -> Option<Seq<char>>;

/// `percent_decode_str` of percent-encoding with `decode_utf8` on its
/// result: the text that the path stands for, or nothing where the decoded
/// bytes are not well-formed UTF-8.
#[verifier::external_body]
fn percent_decode(path: &str) -> (decoded: Option<String>)
    ensures
        match decoded {
            Some(text) => percent_decoded(path@) == Some(text@),
            None => percent_decoded(path@) is None,
        },
{
    match percent_decode_str(path).decode_utf8() {
        Ok(text) => Some(text.into_owned()),
        Err(_) => None,
    }
}

/// The place of the first lesson with the given path.
pub fn lesson_position(lessons: &Vec<Lesson>, path: &str) -> (r: Option<usize>)
    ensures
        match r {
            Some(i) => first_index(lesson_paths(lessons@), path@) == Some(i as int) && i
                < lessons@.len(),
            None => first_index(lesson_paths(lessons@), path@) is None,
        },
{
    let ghost names = lesson_paths(lessons@);
    let mut i: usize = 0;
    while i < lessons.len()
        invariant
            names == lesson_paths(lessons@),
            0 <= i <= lessons@.len(),
            forall|k: int| 0 <= k < i ==> names[k] != path@,
        decreases lessons@.len() - i,
    {
        if same_text(lessons[i].path.as_str(), path) {
            proof {
                first_index_found(names, path@, i as int);
            }
            return Some(i);
        }
        assert(names[i as int] != path@);
        i = i + 1;
    }
    proof {
        first_index_absent(names, path@);
    }
    None
}

/// The place of the first exercise with the given name in paths.
pub fn exercise_position(exercises: &Vec<&Exercise>, path: &str) -> (r: Option<usize>)
    ensures
        match r {
            Some(i) => first_index(exercise_paths(referred(exercises@)), path@) == Some(i as int)
                && i < exercises@.len(),
            None => first_index(exercise_paths(referred(exercises@)), path@) is None,
        },
{
    let ghost names = exercise_paths(referred(exercises@));
    let mut i: usize = 0;
    while i < exercises.len()
        invariant
            names == exercise_paths(referred(exercises@)),
            0 <= i <= exercises@.len(),
            forall|k: int| 0 <= k < i ==> names[k] != path@,
        decreases exercises@.len() - i,
    {
        let name = exercises[i].effective_path();
        assert(names[i as int] == name@);
        if same_text(name.as_str(), path) {
            proof {
                first_index_found(names, path@, i as int);
            }
            return Some(i);
        }
        i = i + 1;
    }
    proof {
        first_index_absent(names, path@);
    }
    None
}

/// The first category with the given name in paths.
pub fn category_named(path: &str) -> (r: Option<ExerciseCategory>)
    ensures
        match r {
            Some(c) => first_index(category_names(), path@) is Some && c
                == ExerciseCategory::listed()[first_index(category_names(), path@)->0],
            None => first_index(category_names(), path@) is None,
        },
{
    let all = ExerciseCategory::elements_vec();
    let ghost names = category_names();
    let mut i: usize = 0;
    while i < all.len()
        invariant
            all@ == ExerciseCategory::listed(),
            names == category_names(),
            0 <= i <= all@.len(),
            forall|k: int| 0 <= k < i ==> names[k] != path@,
        decreases all@.len() - i,
    {
        let name = all[i].to_string();
        assert(names[i as int] == name@);
        if same_text(name.as_str(), path) {
            proof {
                first_index_found(names, path@, i as int);
            }
            return Some(all[i]);
        }
        i = i + 1;
    }
    proof {
        first_index_absent(names, path@);
    }
    None
}

/// References to the exercises of a list, in order.
pub fn exercise_refs<'a>(exercises: &'a Vec<Exercise>) -> (refs: Vec<&'a Exercise>)
    ensures
        referred(refs@) == exercises@,
{
    let mut refs: Vec<&'a Exercise> = Vec::new();
    let mut i: usize = 0;
    while i < exercises.len()
        invariant
            0 <= i <= exercises@.len(),
            refs@.len() == i,
            forall|k: int| 0 <= k < i ==> *refs@[k] == exercises@[k],
        decreases exercises@.len() - i,
    {
        refs.push(&exercises[i]);
        i = i + 1;
    }
    assert(referred(refs@) =~= exercises@);
    refs
}

/// The exercises of all lessons that belong to a category, lesson after
/// lesson.
pub fn exercises_in_category<'a>(lessons: &'a Vec<Lesson>, category: ExerciseCategory) -> (refs:
    Vec<&'a Exercise>)
    ensures
        referred(refs@) == category_exercises(lessons@, category),
{
    let mut refs: Vec<&'a Exercise> = Vec::new();
    let mut l: usize = 0;
    assert(referred(refs@) =~= category_exercises(lessons@.take(0), category));
    while l < lessons.len()
        invariant
            0 <= l <= lessons@.len(),
            referred(refs@) == category_exercises(lessons@.take(l as int), category),
        decreases lessons@.len() - l,
    {
        let exercises = &lessons[l].exercises;
        let ghost done = referred(refs@);
        let mut e: usize = 0;
        assert(referred(refs@) =~= done + chosen(exercises@.take(0), category));
        while e < exercises.len()
            invariant
                0 <= e <= exercises@.len(),
                referred(refs@) == done + chosen(exercises@.take(e as int), category),
            decreases exercises@.len() - e,
        {
            let ghost before = referred(refs@);
            proof {
                assert(exercises@.take(e + 1).drop_last() =~= exercises@.take(e as int));
                assert(exercises@.take(e + 1).last() == exercises@[e as int]);
            }
            if exercises[e].in_category(category) {
                refs.push(&exercises[e]);
                assert(referred(refs@) =~= before.push(exercises@[e as int]));
                assert(referred(refs@) =~= done + chosen(exercises@.take(e + 1), category));
            }
            e = e + 1;
        }
        proof {
            assert(exercises@.take(exercises@.len() as int) =~= exercises@);
            assert(lessons@.take(l + 1).drop_last() =~= lessons@.take(l as int));
            assert(lessons@.take(l + 1).last() == lessons@[l as int]);
        }
        l = l + 1;
    }
    assert(lessons@.take(lessons@.len() as int) =~= lessons@);
    refs
}

/// The link to an exercise under a lesson path.
pub fn link(lesson_path: &str, exercise: &Exercise) -> (r: ExerciseLink)
    ensures
        r.lesson_path@ == lesson_path@,
        r.exercise_path@ == exercise.path_name(),
{
    ExerciseLink { lesson_path: lesson_path.to_owned(), exercise_path: exercise.effective_path() }
}

/// What a lesson path and an exercise path, with its escapes resolved,
/// lead to.
pub fn find_page<'a>(lessons: &'a Lessons, lesson_path: &str, exercise_path: &str) -> (found:
    PageLookup<'a>)
    ensures
        is_page_of(found, lessons.lessons@, lesson_path@, exercise_path@),
{
    let all = &lessons.lessons;
    match lesson_position(all, lesson_path) {
        Some(li) => {
            let lesson = &all[li];
            let exercises = &lesson.exercises;
            let refs = exercise_refs(exercises);
            match exercise_position(&refs, exercise_path) {
                None => PageLookup::UnknownExercise { lesson_path: lesson.path.clone() },
                Some(at) => {
                    let prev_route = if at > 0 {
                        Some(link(lesson.path.as_str(), &exercises[at - 1]))
                    } else if li > 0 && all[li - 1].exercises.len() > 0 {
                        let before = &all[li - 1];
                        Some(link(before.path.as_str(), &before.exercises[before.exercises.len() - 1]))
                    } else {
                        None
                    };
                    let next_route = if at < exercises.len() - 1 {
                        Some(link(lesson.path.as_str(), &exercises[at + 1]))
                    } else if li < all.len() - 1 && all[li + 1].exercises.len() > 0 {
                        let after = &all[li + 1];
                        Some(link(after.path.as_str(), &after.exercises[0]))
                    } else {
                        None
                    };
                    PageLookup::Found(
                        ExercisePage {
                            lesson_name: lesson.name.clone(),
                            exercise: &exercises[at],
                            return_route: ReturnRoute::Lesson { path: lesson.path.clone() },
                            prev_route,
                            next_route,
                        },
                    )
                },
            }
        },
        None => match category_named(lesson_path) {
            None => PageLookup::UnknownLesson,
            Some(category) => {
                let refs = exercises_in_category(all, category);
                match exercise_position(&refs, exercise_path) {
                    None => PageLookup::UnknownExercise { lesson_path: lesson_path.to_owned() },
                    Some(at) => {
                        let prev_route = if at == 0 {
                            None
                        } else {
                            Some(link(lesson_path, refs[at - 1]))
                        };
                        let next_route = if at == refs.len() - 1 {
                            None
                        } else {
                            Some(link(lesson_path, refs[at + 1]))
                        };
                        PageLookup::Found(
                            ExercisePage {
                                lesson_name: category.to_proper_string(),
                                exercise: refs[at],
                                return_route: ReturnRoute::ExerciseCategory { category },
                                prev_route,
                                next_route,
                            },
                        )
                    },
                }
            },
        },
    }
}

/// What a lesson path and an exercise path as it stands in an address lead
/// to. Where the lesson path names a lesson or a category, the escapes of
/// the exercise path are resolved first, and there is no answer where what
/// comes out is no text.
pub fn html_page<'a>(lessons: &'a Lessons, lesson_path: &str, exercise_path: &str) -> (found:
    Option<PageLookup<'a>>)
    ensures
        !names_a_group(lessons.lessons@, lesson_path@) ==> found == Some(
            PageLookup::UnknownLesson,
        ),
        names_a_group(lessons.lessons@, lesson_path@) ==> match percent_decoded(exercise_path@) {
            Some(decoded) => found is Some && is_page_of(
                found->0,
                lessons.lessons@,
                lesson_path@,
                decoded,
            ),
            None => found is None,
        },
{
    if lesson_position(&lessons.lessons, lesson_path).is_none() && category_named(
        lesson_path,
    ).is_none() {
        return Some(PageLookup::UnknownLesson);
    }
    match percent_decode(exercise_path) {
        Some(decoded) => Some(find_page(lessons, lesson_path, decoded.as_str())),
        None => None,
    }
}

/// The page of a lesson: the lesson and the paths of its neighbours.
#[derive(Debug, PartialEq)]
pub struct LessonPage<'a> {
    pub lesson: &'a Lesson,
    pub prev_path: Option<String>,
    pub next_path: Option<String>,
}

/// The first lesson with the given path, with the path of the lesson
/// before it and of the one after it; nothing where no lesson has it.
pub fn find_lesson<'a>(lessons: &'a Lessons, path: &str) -> (found: Option<LessonPage<'a>>)
    ensures
        match first_index(lesson_paths(lessons.lessons@), path@) {
            None => found is None,
            Some(li) => {
                &&& found is Some
                &&& *found->0.lesson == lessons.lessons@[li]
                &&& match found->0.prev_path {
                    Some(p) => li > 0 && p@ == lessons.lessons@[li - 1].path@,
                    None => li == 0,
                }
                &&& match found->0.next_path {
                    Some(p) => li < lessons.lessons@.len() - 1 && p@ == lessons.lessons@[li
                        + 1].path@,
                    None => li == lessons.lessons@.len() - 1,
                }
            },
        },
{
    let all = &lessons.lessons;
    match lesson_position(all, path) {
        None => None,
        Some(li) => {
            let prev_path = if li == 0 {
                None
            } else {
                Some(all[li - 1].path.clone())
            };
            let next_path = if li < all.len() - 1 {
                Some(all[li + 1].path.clone())
            } else {
                None
            };
            Some(LessonPage { lesson: &all[li], prev_path, next_path })
        },
    }
}

} // verus!
