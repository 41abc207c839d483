use calendar_grid::date::Date;
use calendar_grid::grid::{cell_index, CalendarGrid};
use calendar_grid::month::YearAndMonth;
use chrono::{Datelike, NaiveDate};
use std::cell::{Cell, RefCell};
use std::rc::Rc;

/// What a host keeps beside the grid: the two functions it was given, boxed
/// and free to keep state of their own.
struct Host {
    date_picker: Box<dyn FnMut(&u32) -> YearAndMonth>,
    child_builder: Box<dyn FnMut(&NaiveDate, &u32) -> String>,
    grid: CalendarGrid<String>,
    structure_changes: usize,
}

fn naive(date: Date) -> NaiveDate {
    NaiveDate::from_num_days_from_ce_opt(i32::try_from(date.days).unwrap()).unwrap()
}

impl Host {
    fn new(built: Rc<Cell<usize>>) -> Host {
        Host {
            date_picker: Box::new(|month: &u32| YearAndMonth { year: 2024, month: *month }),
            child_builder: Box::new(move |date: &NaiveDate, month: &u32| {
                built.set(built.get() + 1);
                if date.month() == *month {
                    date.day().to_string()
                } else {
                    String::new()
                }
            }),
            grid: CalendarGrid::new(),
            structure_changes: 0,
        }
    }

    fn lifecycle(&mut self, added: bool, data: &u32) {
        let date_picker = &mut self.date_picker;
        let child_builder = RefCell::new(&mut self.child_builder);
        self.grid.lifecycle(
            added,
            || date_picker(data),
            |date: Date| {
                let mut build = child_builder.borrow_mut();
                (**build)(&naive(date), data)
            },
        );
    }

    fn update(&mut self, old_data: &u32, data: &u32) {
        let old_month = (self.date_picker)(old_data);
        let month = (self.date_picker)(data);
        let child_builder = RefCell::new(&mut self.child_builder);
        let changed = self.grid.update(&old_month, &month, |date: Date| {
            let mut build = child_builder.borrow_mut();
            (**build)(&naive(date), data)
        });
        if changed {
            self.structure_changes += 1;
        } else {
            for index in 0..self.grid.len() {
                self.grid.child_mut(index).push('.');
            }
        }
    }
}

#[test]
fn host_attaches_then_updates() {
    let built = Rc::new(Cell::new(0));
    let mut host = Host::new(built.clone());

    host.lifecycle(false, &2);
    assert_eq!(host.grid.len(), 0);
    assert_eq!(built.get(), 0);

    host.lifecycle(true, &2);
    assert_eq!(host.grid.len(), 35);
    assert_eq!(built.get(), 35);
    // February 2024 begins on a Thursday and has 29 days.
    assert_eq!(host.grid.children()[0], "");
    assert_eq!(host.grid.children()[2], "");
    assert_eq!(host.grid.children()[3], "1");
    assert_eq!(host.grid.children()[cell_index(1, 0)], "5");
    assert_eq!(host.grid.children()[31], "29");
    assert_eq!(host.grid.children()[32], "");

    host.update(&2, &2);
    assert_eq!(built.get(), 35);
    assert_eq!(host.structure_changes, 0);
    assert_eq!(host.grid.children()[3], "1.");
    assert_eq!(host.grid.children()[0], ".");

    host.update(&2, &3);
    assert_eq!(built.get(), 70);
    assert_eq!(host.structure_changes, 1);
    assert_eq!(host.grid.month(), Some(YearAndMonth { year: 2024, month: 3 }));
    // March 2024 begins on a Friday.
    assert_eq!(host.grid.children()[3], "");
    assert_eq!(host.grid.children()[4], "1");
    assert_eq!(host.grid.children()[34], "31");
}
