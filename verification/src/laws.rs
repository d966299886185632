//! What holds of every checked EGL call.

use vstd::prelude::*;
use vstd::string::StringSliceAdditionalSpecFns;
use crate::types::{EGLAttrib, EGLBoolean, EGLHandle, EGLint, EGL_FALSE, EGL_NONE, EGL_TRUE, is_null};
use crate::error::EglCallError;
use crate::calls::{
    attrib_list_result, bind_api_result, count_result, handle_result, is_terminated,
    is_terminated_words, proc_address_result, status_result, widened,
};

verus! {

/// A call that answers with a handle never hands out the null handle: it
/// fails exactly when EGL answered with the null handle, and otherwise
/// returns the handle EGL gave, unchanged. Likewise no null function
/// address is handed out: a null answer is the absence of a function.
pub proof fn no_null_handle_is_handed_out(handle: EGLHandle, error: EglCallError)
    ensures
        handle_result(handle, error) is Err <==> is_null(handle),
        handle_result(handle, error) matches Ok(h) ==> !is_null(h) && h == handle,
        proc_address_result(handle) is None <==> is_null(handle),
        proc_address_result(handle) matches Some(f) ==> !is_null(f) && f == handle,
{
}

/// EGL never reads outside an attribute list: what is handed to it is
/// either the null list, for an empty list, or the caller's list unchanged
/// holding `EGL_NONE` at an attribute position; any other list is refused
/// before the call. This holds of `EGLint` and of `EGLAttrib` lists; the
/// calls that read `EGLAttrib` words are handed words, an `EGLint` list
/// being widened first (`widen_attrib_list` keeps its termination).
pub proof fn attrib_list_is_null_or_terminated(list: &[EGLint], words: &[EGLAttrib])
    ensures
        attrib_list_result(list, is_terminated(list@)) matches Ok(Some(l)) ==> l == list && is_terminated(l@),
        attrib_list_result(list, is_terminated(list@)) == Ok::<Option<&[EGLint]>, EglCallError>(None) <==> list@.len() == 0,
        attrib_list_result(list, is_terminated(list@)) is Err <==> list@.len() > 0 && !is_terminated(list@),
        attrib_list_result(words, is_terminated_words(words@)) matches Ok(Some(l)) ==> l == words && is_terminated_words(l@),
        attrib_list_result(words, is_terminated_words(words@)) == Ok::<Option<&[EGLAttrib]>, EglCallError>(None) <==> words@.len() == 0,
        attrib_list_result(words, is_terminated_words(words@)) is Err <==> words@.len() > 0 && !is_terminated_words(words@),
{
}

/// A failed call is reported with the error of its own entry point and
/// nothing else, whatever EGL answered: for a status, a handle, or a count.
pub proof fn failure_names_the_call(
    status: EGLBoolean,
    handle: EGLHandle,
    count: EGLint,
    error: EglCallError,
)
    ensures
        status_result(status, error) is Err ==> status_result(status, error) == Err::<(), EglCallError>(error),
        handle_result(handle, error) is Err ==> handle_result(handle, error) == Err::<EGLHandle, EglCallError>(error),
        count_result(status, count, error) is Err ==> count_result(status, count, error) == Err::<EGLint, EglCallError>(error),
{
}

/// A call that answers with a status and a count succeeds exactly when a
/// call that answers with that status alone does, and then returns the
/// count EGL wrote, unchanged.
pub proof fn count_follows_status(status: EGLBoolean, count: EGLint, error: EglCallError)
    ensures
        count_result(status, count, error) is Ok <==> status_result(status, error) is Ok,
        count_result(status, count, error) matches Ok(n) ==> n == count,
{
}

/// `eglBindAPI`'s status is read more leniently than every other status:
/// whatever status makes another call succeed makes it succeed too, and
/// a status other than `EGL_TRUE` and `EGL_FALSE` makes it succeed while
/// every other call fails.
pub proof fn bind_api_is_lenient(status: EGLBoolean, error: EglCallError)
    ensures
        status_result(status, error) is Ok ==> bind_api_result(status) is Ok,
        bind_api_result(status) is Err ==> status_result(status, error) is Err,
        status != EGL_TRUE && status != EGL_FALSE ==> bind_api_result(status) is Ok && status_result(status, error) is Err,
{
}

/// The NUL-terminated form of a name holds its one `0` byte last, and
/// dropping that byte gives back the name's bytes.
pub proof fn proc_name_is_terminated_once(procname: &str)
    requires
        !procname.spec_bytes().contains(0u8),
    ensures
        procname.spec_bytes().push(0u8).last() == 0u8,
        procname.spec_bytes().push(0u8).drop_last() == procname.spec_bytes(),
        forall|i: int|
            0 <= i < procname.spec_bytes().len() ==> #[trigger] procname.spec_bytes().push(0u8)[i] != 0u8,
{
    let bytes = procname.spec_bytes();
    assert(bytes.push(0u8).drop_last() =~= bytes);
    assert forall|i: int| 0 <= i < bytes.len() implies #[trigger] bytes.push(0u8)[i] != 0u8 by {
        assert(bytes.push(0u8)[i] == bytes[i]);
        if bytes[i] == 0u8 {
            assert(bytes.contains(0u8));
        }
    }
}

/// A list that holds `EGL_NONE` at any attribute (even) position is handed
/// to EGL unchanged, wherever that position is and whatever follows it.
pub proof fn terminated_list_is_handed_over(list: &[EGLint], k: int)
    requires
        0 <= k < list@.len(),
        k % 2 == 0,
        list@[k] == EGL_NONE,
    ensures
        attrib_list_result(list, is_terminated(list@)) == Ok::<Option<&[EGLint]>, EglCallError>(Some(list)),
{
    assert(list@[k] == EGL_NONE);
}

/// [`terminated_list_is_handed_over`] for lists of `EGLAttrib` words.
pub proof fn terminated_words_are_handed_over(words: &[EGLAttrib], k: int)
    requires
        0 <= k < words@.len(),
        k % 2 == 0,
        words@[k] == EGL_NONE as EGLAttrib,
    ensures
        attrib_list_result(words, is_terminated_words(words@)) == Ok::<Option<&[EGLAttrib]>, EglCallError>(Some(words)),
{
    assert(words@[k] == EGL_NONE as EGLAttrib);
}

/// A non-empty list with no `EGL_NONE` at any attribute position is
/// refused, and only such a list: a list is refused exactly when it is
/// non-empty and every even position holds something else.
pub proof fn only_unterminated_lists_are_refused(list: &[EGLint], words: &[EGLAttrib])
    ensures
        attrib_list_result(list, is_terminated(list@)) is Err <==> (list@.len() > 0 && forall|k: int|
            0 <= k < list@.len() && k % 2 == 0 ==> #[trigger] list@[k] != EGL_NONE),
        attrib_list_result(words, is_terminated_words(words@)) is Err <==> (words@.len() > 0 && forall|k: int|
            0 <= k < words@.len() && k % 2 == 0 ==> #[trigger] words@[k] != EGL_NONE as EGLAttrib),
{
}

/// Widening an `EGLint` list gives one word per value, in order, each the
/// same value; an `EGL_NONE` at an attribute position stays there.
pub proof fn widening_keeps_every_value(list: Seq<EGLint>)
    ensures
        widened(list).len() == list.len(),
        forall|i: int| 0 <= i < list.len() ==> #[trigger] widened(list)[i] == list[i] as EGLAttrib,
        forall|k: int| 0 <= k < list.len() && k % 2 == 0 && #[trigger] list[k] == EGL_NONE
            ==> widened(list)[k] == EGL_NONE as EGLAttrib,
{
}

} // verus!
