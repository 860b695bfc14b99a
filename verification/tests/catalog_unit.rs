use flipper::{CatalogError, Flipper, Genero};

#[test]
fn default_works() {
    let flipper = Flipper::default();
    assert_eq!(flipper.get_lista_filmes().is_empty(), true);
}

#[test]
fn with_example_works() {
    let flipper = Flipper::new_with_example();
    let filme_exemplo = flipper.get_lista_filmes()[0].clone();

    assert_eq!(filme_exemplo.nome, "Filme Exemplo");
    assert_eq!(filme_exemplo.bilhetes_vendidos, 1000);
    assert_eq!(filme_exemplo.ano_lancamento, 2025);
    assert_eq!(filme_exemplo.mes_lancamento, 1);
    assert_eq!(filme_exemplo.dia_lancamento, 1);
    assert_eq!(filme_exemplo.genero, Genero::Acao);
}

#[test]
fn with_custom_works() {
    let nome_f = String::from("Novo filme");
    let bilhetes_v = 200;
    let ano_l = 2005;
    let mes_l = 10;
    let dia_l = 2;
    let gen = Genero::Acao;

    let flipper =
        Flipper::new_with_custom(nome_f.clone(), bilhetes_v, ano_l, mes_l, dia_l, gen.clone())
            .expect("Falha ao criar Flipper");
    let filme_exemplo = flipper.get_lista_filmes()[0].clone();

    assert_eq!(filme_exemplo.nome, nome_f);
    assert_eq!(filme_exemplo.bilhetes_vendidos, bilhetes_v);
    assert_eq!(filme_exemplo.ano_lancamento, ano_l);
    assert_eq!(filme_exemplo.mes_lancamento, mes_l);
    assert_eq!(filme_exemplo.dia_lancamento, dia_l);
    assert_eq!(filme_exemplo.genero, gen);
}

#[test]
fn with_custom_no_name() {
    let nome_f = String::from("");
    let bilhetes_v = 200;
    let ano_l = 2005;
    let mes_l = 10;
    let dia_l = 2;
    let gen = Genero::Acao;

    match Flipper::new_with_custom(nome_f.clone(), bilhetes_v, ano_l, mes_l, dia_l, gen.clone()) {
        Ok(_) => panic!("Não deveria ser possível aceitar filme sem nome"),
        Err(e) => {
            assert!(e.message().contains("Por favor, insira um nome para o filme"));
            assert_eq!(e, CatalogError::EmptyName);
        }
    }
}

#[test]
fn with_custom_invalid_date() {
    let nome_f = String::from("Filme inedito!");
    let bilhetes_v = 200;
    let ano_l = 2008;
    let mes_l = 2;
    let dia_l = 31;
    let gen = Genero::Acao;

    match Flipper::new_with_custom(nome_f.clone(), bilhetes_v, ano_l, mes_l, dia_l, gen.clone()) {
        Ok(_) => panic!("Não deveria ser possível aceitar filme com data inválida"),
        Err(e) => {
            assert!(e.message().contains("Data inválida!"));
            assert_eq!(e, CatalogError::InvalidCalendarDate);
        }
    }
}

#[test]
fn creating_valid_movie() {
    let mut flipper = Flipper::default();
    let r = flipper.add_filme(String::from("Filme"), 2000, 2005, 10, 10, Genero::Acao);
    assert_eq!(r, Ok(()));
}

#[test]
fn creating_invalid_name_movie() {
    let mut flipper = Flipper::new_with_example();
    match flipper.add_filme(String::from("Filme Exemplo"), 2000, 2005, 10, 10, Genero::Acao) {
        Ok(_) => panic!("Não deveria ser possível aceitar um nome de filme já existente!"),
        Err(e) => assert!(e.message().contains("Esse nome já existe no sistema!")),
    }
}

#[test]
fn creating_with_no_name_movie() {
    let mut flipper = Flipper::new_with_example();
    match flipper.add_filme(String::from(""), 2000, 2005, 10, 10, Genero::Acao) {
        Ok(_) => panic!("Não deveria ser possível aceitar filme sem nome"),
        Err(e) => assert!(e.message().contains("Por favor, insira um nome para o filme")),
    }
}

#[test]
fn creating_invalid_date_movie() {
    let mut flipper = Flipper::default();
    match flipper.add_filme(String::from("Filme Exemplo"), 2000, 1500, 10, 10, Genero::Acao) {
        Ok(_) => panic!("Não deveria ser possível aceitar um filme desse ano!"),
        Err(e) => {
            assert!(e.message().contains("Por favor, insira um ano válido (Entre 2000 e 2025)!"))
        }
    }
    match flipper.add_filme(String::from("Filme Exemplo"), 2000, 2010, 18, 10, Genero::Acao) {
        Ok(_) => panic!("Não deveria ser possível aceitar um filme com mês inválido!"),
        Err(e) => assert!(e.message().contains("Por favor, insira um mês válido (Entre 1 e 12)!")),
    }
    match flipper.add_filme(String::from("Filme Exemplo"), 2000, 2010, 10, 50, Genero::Acao) {
        Ok(_) => panic!("Não deveria ser possível aceitar um filme com dia inválido!"),
        Err(e) => assert!(e.message().contains("Por favor, insira um dia válido (Entre 1 e 31)!")),
    }
    match flipper.add_filme(String::from("Filme Exemplo"), 2000, 2010, 2, 31, Genero::Acao) {
        Ok(_) => panic!("Não deveria ser possível aceitar um filme com uma data inválida!"),
        Err(e) => assert!(e.message().contains("Data inválida!")),
    }
}

#[test]
fn creating_multiple_movies() {
    let mut flipper = Flipper::default();

    let _ = flipper.add_filme(String::from("Filme 1"), 500, 2010, 5, 10, Genero::Acao);
    let _ = flipper.add_filme(String::from("Filme 2"), 1500, 2015, 7, 15, Genero::Comedia);
    let _ = flipper.add_filme(String::from("Filme 3"), 2000, 2020, 12, 1, Genero::Drama);

    let filmes = flipper.get_lista_filmes();
    assert_eq!(filmes.len(), 3);
}

// The example record, "Filme Exemplo", is indexed under identifier 1.

#[test]
fn deleating_valid_movie() {
    let mut flipper = Flipper::new_with_example();
    assert_eq!(flipper.delete_filme(1), Ok(()));
}

#[test]
fn deleating_without_movie() {
    let mut flipper = Flipper::default();
    match flipper.delete_filme(1) {
        Ok(_) => panic!("an empty catalog has nothing to delete"),
        Err(e) => assert!(e.message().contains("Não existem filmes no sistema!")),
    }
}

#[test]
fn deleating_invalid_movie() {
    let mut flipper = Flipper::new_with_example();
    match flipper.delete_filme(42) {
        Ok(_) => panic!("no record is indexed under 42"),
        Err(e) => assert!(e
            .message()
            .contains("Não existe um filme com esse nome!\nFilmes disponíveis: ")),
    }
}

#[test]
fn deleting_all_movies() {
    let mut flipper = Flipper::new_with_example();

    let _ = flipper.delete_filme(1);

    assert!(flipper.get_lista_filmes().is_empty());
}

#[test]
fn updating_valid_movie() {
    let mut flipper = Flipper::new_with_example();
    // only the name
    assert_eq!(
        flipper.update_filme(1, String::from("Novo nome"), 0, 0, 0, 0, Genero::Acao),
        Ok(())
    );
    // only the tickets sold
    assert_eq!(flipper.update_filme(1, String::from(""), 5000, 0, 0, 0, Genero::Acao), Ok(()));
    // only the date
    assert_eq!(flipper.update_filme(1, String::from(""), 0, 2020, 12, 30, Genero::Acao), Ok(()));
    // every field at once
    assert_eq!(
        flipper.update_filme(1, String::from("Novissimo nome"), 3000, 2012, 10, 20, Genero::Comedia),
        Ok(())
    );
    let filme = flipper.get_lista_filmes()[0].clone();
    assert_eq!(filme.nome, "Novissimo nome");
    assert_eq!(filme.bilhetes_vendidos, 3000);
    assert_eq!(filme.ano_lancamento, 2012);
    assert_eq!(filme.mes_lancamento, 10);
    assert_eq!(filme.dia_lancamento, 20);
    assert_eq!(filme.genero, Genero::Comedia);
}

#[test]
fn updating_without_movie() {
    let mut flipper = Flipper::default();
    match flipper.update_filme(1, String::from(""), 5000, 0, 0, 0, Genero::Acao) {
        Ok(_) => panic!("an empty catalog has nothing to update"),
        Err(e) => assert!(e.message().contains("Não existem filmes no sistema!")),
    }
}

#[test]
fn updating_no_existing_movie() {
    let mut flipper = Flipper::new_with_example();
    match flipper.update_filme(42, String::from(""), 5000, 0, 0, 0, Genero::Acao) {
        Ok(_) => panic!("no record is indexed under 42"),
        Err(e) => assert!(e
            .message()
            .contains("Não existe um filme com esse nome!\nFilmes disponíveis: ")),
    }
}

#[test]
fn updating_invalid_name() {
    let mut flipper = Flipper::new_with_example();
    match flipper.update_filme(1, String::from("Filme Exemplo"), 0, 0, 0, 0, Genero::Acao) {
        Ok(_) => panic!("the record's own name counts as taken"),
        Err(e) => assert!(e.message().contains("Esse nome já existe no sistema!")),
    }
}

#[test]
fn updating_invalid_date() {
    let mut flipper = Flipper::new_with_example();
    match flipper.update_filme(1, String::from("Outro Filme Exemplo"), 2000, 1500, 10, 10, Genero::Acao)
    {
        Ok(_) => panic!("Não deveria ser possível aceitar um filme desse ano!"),
        Err(e) => {
            assert!(e.message().contains("Por favor, insira um ano válido (Entre 2000 e 2025)!"))
        }
    }
    match flipper.update_filme(1, String::from("Outro Filme Exemplo"), 2000, 2010, 18, 10, Genero::Acao)
    {
        Ok(_) => panic!("Não deveria ser possível aceitar um filme com mês inválido!"),
        Err(e) => assert!(e.message().contains("Por favor, insira um mês válido (Entre 1 e 12)!")),
    }
    match flipper.update_filme(1, String::from("Outro Filme Exemplo"), 2000, 2010, 10, 50, Genero::Acao)
    {
        Ok(_) => panic!("Não deveria ser possível aceitar um filme com dia inválido!"),
        Err(e) => assert!(e.message().contains("Por favor, insira um dia válido (Entre 1 e 31)!")),
    }
    match flipper.update_filme(1, String::from("Outro Filme Exemplo"), 2000, 2010, 2, 31, Genero::Acao)
    {
        Ok(_) => panic!("Não deveria ser possível aceitar um filme com dia inválido!"),
        Err(e) => assert!(e.message().contains("Data inválida!")),
    }
}

#[test]
fn updating_just_gender() {
    let mut flipper = Flipper::new_with_example();

    let filme_anterior = flipper.get_lista_filmes()[0].clone();

    let _ = flipper.update_filme(1, String::from(""), 0, 0, 0, 0, Genero::Outros);

    let filme_atualizado = &flipper.get_lista_filmes()[0];

    assert_eq!(filme_atualizado.nome, filme_anterior.nome);
    assert_eq!(filme_atualizado.bilhetes_vendidos, filme_anterior.bilhetes_vendidos);
    assert_eq!(filme_atualizado.ano_lancamento, filme_anterior.ano_lancamento);
    assert_eq!(filme_atualizado.genero, Genero::Outros);
}
