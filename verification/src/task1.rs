//! Sorting: quicksort and selection sort, and the session that runs them.

pub mod fsm;
pub mod quicksort;
pub mod selection_sort;
