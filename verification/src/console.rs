//! Printing through a writer that several callers share behind a spin lock.

use crate::buffer::{rows_of, Buffer};
use crate::color::{Color, ColorCode};
use crate::screen::Screen;
use crate::writer::Writer;
use core::ops::DerefMut;
use spin::{Mutex, MutexGuard};
use vstd::prelude::*;

verus! {

/// `spin::Mutex`, a lock around a value. The verifier sees nothing inside it.
#[verifier::external_type_specification]
#[verifier::external_body]
#[verifier::reject_recursive_types(T)]
pub struct ExMutex<T: ?Sized>(Mutex<T>);

/// `spin::MutexGuard`, the right to use the value of a lock that is held.
#[verifier::external_type_specification]
#[verifier::external_body]
#[verifier::reject_recursive_types(T)]
pub struct ExMutexGuard<'a, T: ?Sized + 'a>(MutexGuard<'a, T>);

/// `spin::Mutex::lock` spins until the lock is free, takes it and hands out
/// a guard; the lock is released when the guard is dropped. Nothing is
/// claimed of the guard, nor that the call returns while another guard of
/// the same lock is alive.
pub assume_specification<T: ?Sized>[ Mutex::<T>::lock ](mutex: &Mutex<T>) -> (guard: MutexGuard<
    '_,
    T,
>)
;

/// `DerefMut` of `spin::MutexGuard` gives access to the value that the lock
/// protects. Nothing is claimed of that value: whoever held the lock before
/// may have changed it.
pub assume_specification<'a, 'b, T: ?Sized>[ <MutexGuard<'a, T> as DerefMut>::deref_mut ](
    guard: &'b mut MutexGuard<'a, T>,
) -> (value: &'b mut T)
;

/// The writer that a console starts with: green on black, at the left edge
/// of the bottom row, over the cells that `buffer` holds.
pub fn console_writer(buffer: &'static mut Buffer) -> (writer: Writer)
    ensures
        writer@ == (Screen {
            column: 0,
            color: ColorCode(ColorCode::pack(Color::Green, Color::Black)),
            rows: rows_of(*old(buffer)),
        }),
        writer@.color == ColorCode(0x02),
        writer@.wf(),
{
    Writer::new(ColorCode::new(Color::Green, Color::Black), buffer)
}

/// Writes `text` through the shared writer. The lock is held from before the
/// first byte until after the last, so the bytes of two calls never mix.
pub fn _print(writer: &Mutex<Writer>, text: &str) {
    let mut guard = writer.lock();
    guard.write_string(text);
}

} // verus!
