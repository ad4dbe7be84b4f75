use numeric_foundations::custom_container::Harrt;

#[test]
fn test_cc_d() {
    let data = Harrt::heap_array_create::<i32>(10);
    data.iter().for_each(|x| {
        assert_eq!(*x, None);
    })
}

#[test]
fn test_cc_di32() {
    const SIZE: usize = 100;
    let data = Harrt::heap_array_zeros_i32(SIZE);
    data.iter().for_each(|x| {
        assert_eq!(*x, 0i32);
    });
}

#[test]
fn test_cc_df32() {
    const SIZE: usize = 100;
    let data = Harrt::heap_array_fill(SIZE, 0f32);
    data.iter().for_each(|x| assert_eq!(*x, 0f32));
}

#[test]
fn test_cc_2d() {
    let data = Harrt::heap_array2d_create::<i32>(10, 10);
    data.iter().for_each(|x| {
        x.iter().for_each(|y| assert_eq!(*y, None));
    })
}

#[test]
fn test_cc_2di32() {
    const SIZE: usize = 100;
    let data = Harrt::heap_array2d_zeros_i32(SIZE, SIZE);
    data.iter().for_each(|x| {
        x.iter().for_each(|y| assert_eq!(*y, 0i32));
    });
}

#[test]
fn test_cc_2df32() {
    const SIZE: usize = 100;
    let data = Harrt::heap_array2d_fill(SIZE, SIZE, 0f32);
    data.iter().for_each(|x| {
        x.iter().for_each(|y| assert_eq!(*y, 0f32));
    });
}

#[test]
fn test_cc_3d() {
    const SIZE: usize = 100;
    let data = Harrt::heap_array3d_create::<i32>(SIZE, SIZE, SIZE);
    data.iter().for_each(|x| {
        x.iter().for_each(|y| {
            y.iter().for_each(|z| assert_eq!(*z, None));
        });
    });
}

#[test]
fn test_cc_3di32() {
    const SIZE: usize = 100;
    let data = Harrt::heap_array3d_zeros_i32(SIZE, SIZE, SIZE);
    data.iter().for_each(|x| {
        x.iter().for_each(|y| {
            y.iter().for_each(|z| assert_eq!(*z, 0i32));
        });
    });
}

#[test]
fn test_cc_3df32() {
    const SIZE: usize = 100;
    let data = Harrt::heap_array3d_fill(SIZE, SIZE, SIZE, 0f32);
    data.iter().for_each(|x| {
        x.iter().for_each(|y| {
            y.iter().for_each(|z| assert_eq!(*z, 0f32));
        });
    });
}

#[test]
fn create_1d_has_the_requested_length() {
    for n in [0usize, 1, 2, 17, 1000] {
        let data = Harrt::heap_array_create::<u8>(n);
        assert_eq!(data.len(), n);
        assert!(data.iter().all(|x| x.is_none()));
    }
}

#[test]
fn create_1d_of_a_type_that_is_not_copy() {
    let data = Harrt::heap_array_create::<String>(4);
    assert_eq!(data.len(), 4);
    assert!(data.iter().all(|x| x.is_none()));
}

#[test]
fn zeros_1d_has_the_requested_length() {
    for n in [0usize, 1, 2, 17, 1000] {
        let data = Harrt::heap_array_zeros_i32(n);
        assert_eq!(data.len(), n);
        assert!(data.iter().all(|x| *x == 0));
    }
}

#[test]
fn size_zero_gives_an_empty_array() {
    assert!(Harrt::heap_array_create::<i32>(0).is_empty());
    assert!(Harrt::heap_array_zeros_i32(0).is_empty());
    assert!(Harrt::heap_array_fill(0, 0f32).is_empty());
}

#[test]
fn fill_1d_holds_the_value_in_every_slot() {
    let data = Harrt::heap_array_fill(3, 7u8);
    assert_eq!(&*data, &[7u8, 7, 7][..]);
    let data = Harrt::heap_array_fill(2, 1.5f32);
    assert_eq!(&*data, &[1.5f32, 1.5][..]);
}

#[test]
fn create_2d_is_rectangular() {
    let data = Harrt::heap_array2d_create::<i32>(3, 5);
    assert_eq!(data.len(), 3);
    for row in data.iter() {
        assert_eq!(row.len(), 5);
        assert!(row.iter().all(|x| x.is_none()));
    }
}

#[test]
fn zeros_2d_is_rectangular() {
    let data = Harrt::heap_array2d_zeros_i32(4, 2);
    assert_eq!(data.len(), 4);
    for row in data.iter() {
        assert_eq!(&**row, &[0i32, 0][..]);
    }
}

#[test]
fn zeros_2d_of_hundred_by_hundred_has_ten_thousand_zeros() {
    let data = Harrt::heap_array2d_zeros_i32(100, 100);
    let mut count: usize = 0;
    for row in data.iter() {
        for cell in row.iter() {
            assert_eq!(*cell, 0);
            count += 1;
        }
    }
    assert_eq!(count, 10_000);
}

#[test]
fn create_2d_of_ten_by_ten_has_hundred_empty_slots() {
    let data = Harrt::heap_array2d_create::<i32>(10, 10);
    let mut count: usize = 0;
    for row in data.iter() {
        for cell in row.iter() {
            assert_eq!(*cell, None);
            count += 1;
        }
    }
    assert_eq!(count, 100);
}

#[test]
fn two_dimensions_with_a_zero_size() {
    let no_rows = Harrt::heap_array2d_zeros_i32(0, 5);
    assert_eq!(no_rows.len(), 0);
    let no_cols = Harrt::heap_array2d_zeros_i32(5, 0);
    assert_eq!(no_cols.len(), 5);
    assert!(no_cols.iter().all(|row| row.is_empty()));
    let nothing = Harrt::heap_array2d_create::<i32>(0, 0);
    assert!(nothing.is_empty());
}

#[test]
fn rows_are_independent() {
    let mut data = Harrt::heap_array2d_zeros_i32(3, 4);
    data[1][2] = 9;
    data[1][0] = -1;
    assert_eq!(&*data[0], &[0, 0, 0, 0][..]);
    assert_eq!(&*data[1], &[-1, 0, 9, 0][..]);
    assert_eq!(&*data[2], &[0, 0, 0, 0][..]);

    let mut slots = Harrt::heap_array2d_create::<i32>(2, 2);
    slots[0][1] = Some(5);
    assert_eq!(&*slots[0], &[None, Some(5)][..]);
    assert_eq!(&*slots[1], &[None, None][..]);
}

#[test]
fn set_2d_writes_one_cell_only() {
    let mut data = Harrt::heap_array2d_zeros_i32(3, 4);
    Harrt::heap_array2d_set(&mut data, 2, 3, 7);
    Harrt::heap_array2d_set(&mut data, 0, 0, 5);
    for i in 0..3usize {
        assert_eq!(data[i].len(), 4);
        for j in 0..4usize {
            let expected: i32 = if (i, j) == (2, 3) {
                7
            } else if (i, j) == (0, 0) {
                5
            } else {
                0
            };
            assert_eq!(data[i][j], expected);
        }
    }
}

#[test]
fn create_3d_is_rectangular() {
    let data = Harrt::heap_array3d_create::<i32>(2, 3, 4);
    assert_eq!(data.len(), 2);
    for plane in data.iter() {
        assert_eq!(plane.len(), 3);
        for row in plane.iter() {
            assert_eq!(row.len(), 4);
            assert!(row.iter().all(|x| x.is_none()));
        }
    }
}

#[test]
fn zeros_3d_is_rectangular() {
    let data = Harrt::heap_array3d_zeros_i32(4, 1, 2);
    assert_eq!(data.len(), 4);
    for plane in data.iter() {
        assert_eq!(plane.len(), 1);
        for row in plane.iter() {
            assert_eq!(&**row, &[0i32, 0][..]);
        }
    }
}

#[test]
fn three_dimensions_with_a_zero_size() {
    assert_eq!(Harrt::heap_array3d_zeros_i32(0, 2, 2).len(), 0);
    let no_rows = Harrt::heap_array3d_zeros_i32(2, 0, 2);
    assert_eq!(no_rows.len(), 2);
    assert!(no_rows.iter().all(|plane| plane.is_empty()));
    let no_cells = Harrt::heap_array3d_create::<i32>(2, 3, 0);
    assert_eq!(no_cells.len(), 2);
    for plane in no_cells.iter() {
        assert_eq!(plane.len(), 3);
        assert!(plane.iter().all(|row| row.is_empty()));
    }
}

#[test]
fn planes_and_rows_are_independent() {
    let mut data = Harrt::heap_array3d_zeros_i32(2, 2, 3);
    data[1][0][2] = 4;
    assert_eq!(&*data[0][0], &[0, 0, 0][..]);
    assert_eq!(&*data[0][1], &[0, 0, 0][..]);
    assert_eq!(&*data[1][0], &[0, 0, 4][..]);
    assert_eq!(&*data[1][1], &[0, 0, 0][..]);
}

#[test]
fn set_3d_writes_one_cell_only() {
    let mut data = Harrt::heap_array3d_fill(2, 3, 4, 1u8);
    Harrt::heap_array3d_set(&mut data, 1, 2, 3, 9u8);
    for x in 0..2usize {
        assert_eq!(data[x].len(), 3);
        for y in 0..3usize {
            assert_eq!(data[x][y].len(), 4);
            for z in 0..4usize {
                let expected: u8 = if (x, y, z) == (1, 2, 3) { 9 } else { 1 };
                assert_eq!(data[x][y][z], expected);
            }
        }
    }
}
